use vstd::prelude::*;
use vstd::string::StringExecFns;

use vstd::arithmetic::div_mod::lemma_div_decreases;

verus! {

/// The character for one decimal digit.
pub open spec fn digit_char(d: int) -> char {
    if d == 0 {
        '0'
    } else if d == 1 {
        '1'
    } else if d == 2 {
        '2'
    } else if d == 3 {
        '3'
    } else if d == 4 {
        '4'
    } else if d == 5 {
        '5'
    } else if d == 6 {
        '6'
    } else if d == 7 {
        '7'
    } else if d == 8 {
        '8'
    } else {
        '9'
    }
}

/// The decimal digits of a non-negative integer, most significant first.
pub open spec fn dec_digits(n: nat) -> Seq<char>
    decreases n,
{
    if n < 10 {
        seq![digit_char(n as int)]
    } else {
        dec_digits(n / 10) + seq![digit_char((n % 10) as int)]
    }
}

/// The decimal rendering of an integer, with a leading minus sign when it is
/// negative.
pub open spec fn dec_int(n: int) -> Seq<char> {
    if n < 0 {
        seq!['-'] + dec_digits((-n) as nat)
    } else {
        dec_digits(n as nat)
    }
}

/// The single-character string for one decimal digit.
fn digit_str(d: u64) -> (r: String)
    requires
        d < 10,
    ensures
        r@ =~= seq![digit_char(d as int)],
{
    proof {
        reveal_strlit("0");
        reveal_strlit("1");
        reveal_strlit("2");
        reveal_strlit("3");
        reveal_strlit("4");
        reveal_strlit("5");
        reveal_strlit("6");
        reveal_strlit("7");
        reveal_strlit("8");
        reveal_strlit("9");
    }
    let s: &str = if d == 0 {
        "0"
    } else if d == 1 {
        "1"
    } else if d == 2 {
        "2"
    } else if d == 3 {
        "3"
    } else if d == 4 {
        "4"
    } else if d == 5 {
        "5"
    } else if d == 6 {
        "6"
    } else if d == 7 {
        "7"
    } else if d == 8 {
        "8"
    } else {
        "9"
    };
    s.to_owned()
}

/// Renders an unsigned integer in decimal.
pub fn u64_to_string(n: u64) -> (r: String)
    ensures
        r@ == dec_digits(n as nat),
    decreases n,
{
    if n < 10 {
        digit_str(n)
    } else {
        proof {
            lemma_div_decreases(n as int, 10);
        }
        let mut s = u64_to_string(n / 10);
        let d = digit_str(n % 10);
        s.append(d.as_str());
        proof {
            assert(s@ =~= dec_digits(n as nat));
        }
        s
    }
}

/// Renders a signed integer in decimal, with a minus sign when negative.
pub fn i64_to_string(n: i64) -> (r: String)
    ensures
        r@ == dec_int(n as int),
{
    if n >= 0 {
        u64_to_string(n as u64)
    } else {
        let mag: u64 = (-(n as i128)) as u64;
        let mut s = "-".to_owned();
        let digits = u64_to_string(mag);
        s.append(digits.as_str());
        proof {
            reveal_strlit("-");
            assert(s@ =~= dec_int(n as int));
        }
        s
    }
}

/// Bytes per KiB, MiB, GiB, TiB and PiB.
pub const ONE_KI_B: i64 = 1024;

pub const ONE_MI_B: i64 = 1024 * 1024;

pub const ONE_GI_B: i64 = 1024 * 1024 * 1024;

pub const ONE_TI_B: i64 = 1024 * 1024 * 1024 * 1024;

pub const ONE_PI_B: i64 = 1024 * 1024 * 1024 * 1024 * 1024;

/// The human-readable rendering of a byte count: the count divided by the
/// largest binary unit below it, truncated, with the unit's suffix.
pub open spec fn pretty_size_chars(bytes: int) -> Seq<char> {
    if bytes < ONE_KI_B {
        dec_int(bytes) + " Bytes"@
    } else if bytes < ONE_MI_B {
        dec_digits((bytes / ONE_KI_B as int) as nat) + " KiB"@
    } else if bytes < ONE_GI_B {
        dec_digits((bytes / ONE_MI_B as int) as nat) + " MiB"@
    } else if bytes < ONE_TI_B {
        dec_digits((bytes / ONE_GI_B as int) as nat) + " GiB"@
    } else if bytes < ONE_PI_B {
        dec_digits((bytes / ONE_TI_B as int) as nat) + " TiB"@
    } else {
        dec_digits((bytes / ONE_PI_B as int) as nat) + " PiB"@
    }
}

/// Pretty-prints a byte count using binary units, truncating the quotient.
pub fn get_pretty_size(bytes: i64) -> (r: String)
    ensures
        r@ == pretty_size_chars(bytes as int),
{
    proof {
        reveal_strlit(" Bytes");
        reveal_strlit(" KiB");
        reveal_strlit(" MiB");
        reveal_strlit(" GiB");
        reveal_strlit(" TiB");
        reveal_strlit(" PiB");
    }
    if bytes < ONE_KI_B {
        let mut s = i64_to_string(bytes);
        s.append(" Bytes");
        proof {
            assert(s@ =~= pretty_size_chars(bytes as int));
        }
        return s;
    }
    let b = bytes as u64;
    let mut s = if bytes < ONE_MI_B {
        let mut s = u64_to_string(b / 1024);
        s.append(" KiB");
        s
    } else if bytes < ONE_GI_B {
        let mut s = u64_to_string(b / (1024 * 1024));
        s.append(" MiB");
        s
    } else if bytes < ONE_TI_B {
        let mut s = u64_to_string(b / (1024 * 1024 * 1024));
        s.append(" GiB");
        s
    } else if bytes < ONE_PI_B {
        let mut s = u64_to_string(b / (1024 * 1024 * 1024 * 1024));
        s.append(" TiB");
        s
    } else {
        let mut s = u64_to_string(b / (1024 * 1024 * 1024 * 1024 * 1024));
        s.append(" PiB");
        s
    };
    proof {
        assert(s@ =~= pretty_size_chars(bytes as int));
    }
    s
}

/// The row-count report line for one file.
pub fn rowcount_line(file_name: &str, count: i64) -> (r: String)
    ensures
        r@ == "File Name: "@ + file_name@ + ": "@ + dec_int(count as int) + " rows"@,
{
    let mut s = "File Name: ".to_owned();
    s.append(file_name);
    s.append(": ");
    let digits = i64_to_string(count);
    s.append(digits.as_str());
    s.append(" rows");
    proof {
        reveal_strlit("File Name: ");
        reveal_strlit(": ");
        reveal_strlit(" rows");
        assert(s@ =~= "File Name: "@ + file_name@ + ": "@ + dec_int(count as int) + " rows"@);
    }
    s
}

/// The uncompressed-size report line, either as a raw count or pretty-printed.
pub fn uncompressed_size_line(value: i64, pretty: bool) -> (r: String)
    ensures
        r@ == "Uncompressed Size: "@ + (if pretty {
            pretty_size_chars(value as int)
        } else {
            dec_int(value as int)
        }),
{
    let mut s = "Uncompressed Size: ".to_owned();
    let v = if pretty {
        get_pretty_size(value)
    } else {
        i64_to_string(value)
    };
    s.append(v.as_str());
    proof {
        reveal_strlit("Uncompressed Size: ");
    }
    s
}

/// The compressed-size report line, either as a raw count or pretty-printed.
pub fn compressed_size_line(value: i64, pretty: bool) -> (r: String)
    ensures
        r@ == "Compressed Size: "@ + (if pretty {
            pretty_size_chars(value as int)
        } else {
            dec_int(value as int)
        }),
{
    let mut s = "Compressed Size: ".to_owned();
    let v = if pretty {
        get_pretty_size(value)
    } else {
        i64_to_string(value)
    };
    s.append(v.as_str());
    proof {
        reveal_strlit("Compressed Size: ");
    }
    s
}

/// The size report line for one file: the uncompressed or the compressed
/// figure, raw or pretty-printed.
pub open spec fn size_line_chars(compressed: bool, pretty: bool, value: int) -> Seq<char> {
    if !compressed {
        "Uncompressed Size: "@ + (if pretty {
            pretty_size_chars(value)
        } else {
            dec_int(value)
        })
    } else {
        "Compressed Size: "@ + (if pretty {
            pretty_size_chars(value)
        } else {
            dec_int(value)
        })
    }
}

/// Whether `line` is a row-count report line for the file named `name`:
/// the file's name followed by some non-negative count of rows.
pub open spec fn is_rowcount_line(line: Seq<char>, name: Seq<char>) -> bool {
    exists|count: int|
        0 <= count && line == "File Name: "@ + name + ": "@ + #[trigger] dec_int(count) + " rows"@
}

/// Whether `line` is a size report line under the given flags: the matching
/// label followed by some non-negative figure, raw or pretty-printed.
pub open spec fn is_size_line(line: Seq<char>, compressed: bool, pretty: bool) -> bool {
    exists|v: int| 0 <= v && line == #[trigger] size_line_chars(compressed, pretty, v)
}

/// Whether a file name names a hidden file: it starts with a dot.
pub fn is_hidden_name(name: &str) -> (r: bool)
    ensures
        r == (name@.len() > 0 && name@[0] == '.'),
{
    broadcast use vstd::string::axiom_spec_iter, vstd::string::next_postcondition;

    let mut it = name.chars();
    match it.next() {
        Some(c) => c == '.',
        None => false,
    }
}

/// Whether two string slices hold the same characters.
pub fn str_eq(a: &str, b: &str) -> (r: bool)
    ensures
        r == (a@ == b@),
{
    let sa = a.to_owned();
    let sb = b.to_owned();
    sa == sb
}

} // verus!
