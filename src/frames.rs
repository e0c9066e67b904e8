use vstd::prelude::*;

verus! {

/// Lower-case hexadecimal digit of `n` (taken modulo 16).
pub open spec fn hex_digit(n: u32) -> char {
    let d = n % 16;
    if d < 10 {
        (('0' as u32) + d) as char
    } else {
        (('a' as u32) + d - 10) as char
    }
}

/// How one character stands inside a JSON string literal.
pub open spec fn escape_char(c: char) -> Seq<char> {
    if c == '"' {
        seq!['\\', '"']
    } else if c == '\\' {
        seq!['\\', '\\']
    } else if c == '\n' {
        seq!['\\', 'n']
    } else if c == '\r' {
        seq!['\\', 'r']
    } else if c == '\t' {
        seq!['\\', 't']
    } else if (c as u32) < 0x20 {
        seq!['\\', 'u', '0', '0', hex_digit((c as u32) / 16), hex_digit(c as u32)]
    } else {
        seq![c]
    }
}

/// The body of a JSON string literal that holds `s`.
pub open spec fn json_escape(s: Seq<char>) -> Seq<char>
    decreases s.len(),
{
    if s.len() == 0 {
        Seq::empty()
    } else {
        json_escape(s.drop_last()) + escape_char(s.last())
    }
}

/// The error frame sent back to a client whose text could not be read as a
/// message: `{"error": "Invalid message format: <description>"}`.
pub open spec fn error_frame_text(description: Seq<char>) -> Seq<char> {
    "{\"error\": \"Invalid message format: "@ + json_escape(description) + "\"}"@
}

fn hex_str(n: u32) -> (r: &'static str)
    ensures
        r@ == seq![hex_digit(n)],
{
    let d = n % 16;
    if d == 0 { proof { reveal_strlit("0"); } "0" }
    else if d == 1 { proof { reveal_strlit("1"); } "1" }
    else if d == 2 { proof { reveal_strlit("2"); } "2" }
    else if d == 3 { proof { reveal_strlit("3"); } "3" }
    else if d == 4 { proof { reveal_strlit("4"); } "4" }
    else if d == 5 { proof { reveal_strlit("5"); } "5" }
    else if d == 6 { proof { reveal_strlit("6"); } "6" }
    else if d == 7 { proof { reveal_strlit("7"); } "7" }
    else if d == 8 { proof { reveal_strlit("8"); } "8" }
    else if d == 9 { proof { reveal_strlit("9"); } "9" }
    else if d == 10 { proof { reveal_strlit("a"); } "a" }
    else if d == 11 { proof { reveal_strlit("b"); } "b" }
    else if d == 12 { proof { reveal_strlit("c"); } "c" }
    else if d == 13 { proof { reveal_strlit("d"); } "d" }
    else if d == 14 { proof { reveal_strlit("e"); } "e" }
    else { proof { reveal_strlit("f"); } "f" }
}

/// Appends to `out` the JSON string-literal form of the character at
/// position `i` of `s`.
fn push_escaped(out: &mut String, s: &str, i: usize)
    requires
        i < s@.len() <= usize::MAX,
    ensures
        final(out)@ == old(out)@ + escape_char(s@[i as int]),
{
    let c = s.get_char(i);
    if c == '"' {
        proof { reveal_strlit("\\\""); }
        out.append("\\\"");
    } else if c == '\\' {
        proof { reveal_strlit("\\\\"); }
        out.append("\\\\");
    } else if c == '\n' {
        proof { reveal_strlit("\\n"); }
        out.append("\\n");
    } else if c == '\r' {
        proof { reveal_strlit("\\r"); }
        out.append("\\r");
    } else if c == '\t' {
        proof { reveal_strlit("\\t"); }
        out.append("\\t");
    } else if (c as u32) < 0x20 {
        proof { reveal_strlit("\\u00"); }
        out.append("\\u00");
        out.append(hex_str((c as u32) / 16));
        out.append(hex_str(c as u32));
    } else {
        let one = s.substring_char(i, i + 1);
        assert(one@ =~= seq![c]);
        out.append(one);
    }
}

/// Appends to `out` the body of a JSON string literal that holds `s`.
pub fn push_json_escaped(out: &mut String, s: &str)
    ensures
        final(out)@ == old(out)@ + json_escape(s@),
{
    let n = s.unicode_len();
    let mut i: usize = 0;
    while i < n
        invariant
            n == s@.len(),
            i <= n,
            out@ == old(out)@ + json_escape(s@.subrange(0, i as int)),
        decreases n - i,
    {
        let ghost before = out@;
        push_escaped(out, s, i);
        proof {
            let next = s@.subrange(0, i + 1);
            assert(next.drop_last() =~= s@.subrange(0, i as int));
            assert(next.last() == s@[i as int]);
        }
        i = i + 1;
    }
    assert(s@.subrange(0, n as int) =~= s@);
}

/// The error frame for a text frame that could not be read as a message;
/// `description` says what was wrong with it.
pub fn error_frame(description: &str) -> (r: String)
    ensures
        r@ == error_frame_text(description@),
{
    let mut out = String::from_str("{\"error\": \"Invalid message format: ");
    push_json_escaped(&mut out, description);
    out.append("\"}");
    out
}

} // verus!
