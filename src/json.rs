use vstd::prelude::*;
use vstd::string::*;

verus! {

/// Lower-case hexadecimal digit of `d`, for `d < 16`.
pub open spec fn hex_digit(d: nat) -> char {
    "0123456789abcdef"@[d as int]
}

/// Decimal digit of `d`, for `d < 10`.
pub open spec fn decimal_digit(d: nat) -> char {
    "0123456789"@[d as int]
}

/// How one character is written inside a JSON string literal: quote and
/// backslash are escaped, control characters take their short escape or a
/// `\u00XX` form, everything else stands as it is.
pub open spec fn escape_char(c: char) -> Seq<char> {
    if c == '"' {
        seq!['\\', '"']
    } else if c == '\\' {
        seq!['\\', '\\']
    } else if c == '\n' {
        seq!['\\', 'n']
    } else if c == '\r' {
        seq!['\\', 'r']
    } else if c == '\t' {
        seq!['\\', 't']
    } else if (c as u32) == 8 {
        seq!['\\', 'b']
    } else if (c as u32) == 12 {
        seq!['\\', 'f']
    } else if (c as u32) < 32 {
        seq!['\\', 'u', '0', '0', hex_digit((c as u32 / 16) as nat), hex_digit((c as u32 % 16) as nat)]
    } else {
        seq![c]
    }
}

/// The characters of `s`, each escaped.
pub open spec fn escaped(s: Seq<char>) -> Seq<char>
    decreases s.len(),
{
    if s.len() == 0 {
        Seq::empty()
    } else {
        escaped(s.drop_last()) + escape_char(s.last())
    }
}

/// A JSON string literal holding `s`.
pub open spec fn json_string(s: Seq<char>) -> Seq<char> {
    seq!['"'] + escaped(s) + seq!['"']
}

/// Decimal notation of `n`, without leading zeros.
pub open spec fn decimal(n: nat) -> Seq<char>
    decreases n,
{
    if n < 10 {
        seq![decimal_digit(n)]
    } else {
        decimal(n / 10) + seq![decimal_digit(n % 10)]
    }
}

/// Parts separated by commas.
pub open spec fn join(parts: Seq<Seq<char>>) -> Seq<char>
    decreases parts.len(),
{
    if parts.len() == 0 {
        Seq::empty()
    } else if parts.len() == 1 {
        parts[0]
    } else {
        join(parts.drop_last()) + seq![','] + parts.last()
    }
}

/// An object member: the key as a string literal, a colon, the value.
pub open spec fn member(key: Seq<char>, value: Seq<char>) -> Seq<char> {
    json_string(key) + seq![':'] + value
}

/// A JSON object made of the given members, in order.
pub open spec fn json_object(members: Seq<Seq<char>>) -> Seq<char> {
    seq!['{'] + join(members) + seq!['}']
}

/// A JSON array made of the given elements, in order.
pub open spec fn json_array(items: Seq<Seq<char>>) -> Seq<char> {
    seq!['['] + join(items) + seq![']']
}

/// The texts of a sequence of strings.
pub open spec fn texts(v: Seq<String>) -> Seq<Seq<char>> {
    v.map_values(|s: String| s@)
}

/// Appends `s` to `out` with every character escaped.
pub fn push_escaped(out: &mut String, s: &str)
    ensures
        final(out)@ == old(out)@ + escaped(s@),
{
    let n = s.unicode_len();
    let mut i: usize = 0;
    while i < n
        invariant
            n == s@.len(),
            i <= n,
            out@ == old(out)@ + escaped(s@.subrange(0, i as int)),
        decreases n - i,
    {
        let c = s.get_char(i);
        let ghost before = out@;
        proof {
            reveal_strlit("\\\"");
            reveal_strlit("\\\\");
            reveal_strlit("\\n");
            reveal_strlit("\\r");
            reveal_strlit("\\t");
            reveal_strlit("\\b");
            reveal_strlit("\\f");
            reveal_strlit("\\u00");
            reveal_strlit("0123456789abcdef");
        }
        if c == '"' {
            out.append("\\\"");
        } else if c == '\\' {
            out.append("\\\\");
        } else if c == '\n' {
            out.append("\\n");
        } else if c == '\r' {
            out.append("\\r");
        } else if c == '\t' {
            out.append("\\t");
        } else if (c as u32) == 8 {
            out.append("\\b");
        } else if (c as u32) == 12 {
            out.append("\\f");
        } else if (c as u32) < 32 {
            let code = c as u32;
            let hi = (code / 16) as usize;
            let lo = (code % 16) as usize;
            out.append("\\u00");
            out.append("0123456789abcdef".substring_char(hi, hi + 1));
            out.append("0123456789abcdef".substring_char(lo, lo + 1));
        } else {
            out.append(s.substring_char(i, i + 1));
        }
        proof {
            assert(out@ == before + escape_char(c));
            assert(s@.subrange(0, i + 1).drop_last() == s@.subrange(0, i as int));
        }
        i = i + 1;
    }
    proof {
        assert(s@.subrange(0, n as int) == s@);
    }
}

/// Appends the decimal notation of `n` to `out`.
pub fn push_decimal(out: &mut String, n: u64)
    ensures
        final(out)@ == old(out)@ + decimal(n as nat),
    decreases n,
{
    if n >= 10 {
        push_decimal(out, n / 10);
    }
    let d = (n % 10) as usize;
    proof {
        reveal_strlit("0123456789");
    }
    out.append("0123456789".substring_char(d, d + 1));
}

/// Appends the given parts to `out`, separated by commas.
pub fn push_joined(out: &mut String, parts: &Vec<String>)
    ensures
        final(out)@ == old(out)@ + join(texts(parts@)),
{
    let mut i: usize = 0;
    while i < parts.len()
        invariant
            i <= parts@.len(),
            out@ == old(out)@ + join(texts(parts@).take(i as int)),
        decreases parts@.len() - i,
    {
        proof {
            reveal_strlit(",");
            assert(texts(parts@).take(i + 1).drop_last() == texts(parts@).take(i as int));
        }
        if i > 0 {
            out.append(",");
        }
        out.append(parts[i].as_str());
        i = i + 1;
    }
    proof {
        assert(texts(parts@).take(parts@.len() as int) == texts(parts@));
    }
}

/// A JSON string literal holding `s`.
pub fn string_literal(s: &str) -> (r: String)
    ensures
        r@ == json_string(s@),
{
    let mut out = String::new();
    proof {
        reveal_strlit("\"");
    }
    out.append("\"");
    push_escaped(&mut out, s);
    out.append("\"");
    out
}

/// The decimal notation of `n`.
pub fn number_literal(n: u64) -> (r: String)
    ensures
        r@ == decimal(n as nat),
{
    let mut out = String::new();
    push_decimal(&mut out, n);
    out
}

/// An object member with key `key` and the already written value `value`.
pub fn member_text(key: &str, value: String) -> (r: String)
    ensures
        r@ == member(key@, value@),
{
    let mut out = string_literal(key);
    proof {
        reveal_strlit(":");
    }
    out.append(":");
    out.append(value.as_str());
    out
}

/// A JSON object with the given members, in order.
pub fn object_text(members: &Vec<String>) -> (r: String)
    ensures
        r@ == json_object(texts(members@)),
{
    let mut out = String::new();
    proof {
        reveal_strlit("{");
        reveal_strlit("}");
    }
    out.append("{");
    push_joined(&mut out, members);
    out.append("}");
    out
}

/// A JSON array with the given elements, in order.
pub fn array_text(items: &Vec<String>) -> (r: String)
    ensures
        r@ == json_array(texts(items@)),
{
    let mut out = String::new();
    proof {
        reveal_strlit("[");
        reveal_strlit("]");
    }
    out.append("[");
    push_joined(&mut out, items);
    out.append("]");
    out
}

} // verus!
