use vstd::prelude::*;

verus! {

/// The character of a decimal digit.
pub open spec fn digit_char(d: nat) -> char {
    if d == 0 {
        '0'
    } else if d == 1 {
        '1'
    } else if d == 2 {
        '2'
    } else if d == 3 {
        '3'
    } else if d == 4 {
        '4'
    } else if d == 5 {
        '5'
    } else if d == 6 {
        '6'
    } else if d == 7 {
        '7'
    } else if d == 8 {
        '8'
    } else {
        '9'
    }
}

/// The decimal notation of a number, most significant digit first, without
/// leading zeros (zero is written `0`).
pub open spec fn decimal_text(n: nat) -> Seq<char>
    decreases n,
{
    if n < 10 {
        seq![digit_char(n)]
    } else {
        decimal_text(n / 10) + seq![digit_char(n % 10)]
    }
}

/// The value of a decimal digit character (0 for any other character).
pub open spec fn digit_value(c: char) -> nat {
    if c == '1' {
        1
    } else if c == '2' {
        2
    } else if c == '3' {
        3
    } else if c == '4' {
        4
    } else if c == '5' {
        5
    } else if c == '6' {
        6
    } else if c == '7' {
        7
    } else if c == '8' {
        8
    } else if c == '9' {
        9
    } else {
        0
    }
}

/// Whether a character is one of the ten decimal digits.
pub open spec fn is_decimal_digit(c: char) -> bool {
    c == '0' || c == '1' || c == '2' || c == '3' || c == '4' || c == '5' || c == '6' || c == '7'
        || c == '8' || c == '9'
}

/// The number that a string of decimal digits denotes, most significant first.
pub open spec fn decimal_value(s: Seq<char>) -> nat
    decreases s.len(),
{
    if s.len() == 0 {
        0
    } else {
        10 * decimal_value(s.drop_last()) + digit_value(s.last())
    }
}

/// The decimal text of a number is a non-empty string of decimal digits, with no
/// leading zero unless the number is zero, that reads back as the number.
pub proof fn lemma_decimal_text_reads_back(n: nat)
    ensures
        decimal_value(decimal_text(n)) == n,
        decimal_text(n).len() >= 1,
        forall|i: int| 0 <= i < decimal_text(n).len() ==> is_decimal_digit(#[trigger] decimal_text(n)[i]),
        n >= 10 ==> decimal_text(n)[0] != '0',
    decreases n,
{
    if n < 10 {
        let s = seq![digit_char(n)];
        assert(s.drop_last() =~= Seq::<char>::empty());
        assert(decimal_value(s.drop_last()) == 0);
        assert(digit_value(digit_char(n)) == n);
        assert(decimal_value(s) == 10 * decimal_value(s.drop_last()) + digit_value(s.last()));
    } else {
        let q = n / 10;
        let d = n % 10;
        lemma_decimal_text_reads_back(q);
        let s = decimal_text(n);
        assert(s == decimal_text(q) + seq![digit_char(d)]);
        assert(s.drop_last() =~= decimal_text(q));
        assert(s.last() == digit_char(d));
        assert(digit_value(digit_char(d)) == d);
        assert(10 * q + d == n);
        assert(decimal_value(s) == 10 * decimal_value(s.drop_last()) + digit_value(s.last()));
        assert forall|i: int| 0 <= i < s.len() implies is_decimal_digit(#[trigger] s[i]) by {
            if i < decimal_text(q).len() {
                assert(s[i] == decimal_text(q)[i]);
            }
        }
        assert(s[0] == decimal_text(q)[0]);
        if q < 10 {
            assert(decimal_text(q) == seq![digit_char(q)]);
        }
    }
}

fn digit_str(d: u64) -> (r: &'static str)
    requires
        d < 10,
    ensures
        r@ == seq![digit_char(d as nat)],
{
    proof {
        reveal_strlit("0");
        reveal_strlit("1");
        reveal_strlit("2");
        reveal_strlit("3");
        reveal_strlit("4");
        reveal_strlit("5");
        reveal_strlit("6");
        reveal_strlit("7");
        reveal_strlit("8");
        reveal_strlit("9");
    }
    if d == 0 {
        "0"
    } else if d == 1 {
        "1"
    } else if d == 2 {
        "2"
    } else if d == 3 {
        "3"
    } else if d == 4 {
        "4"
    } else if d == 5 {
        "5"
    } else if d == 6 {
        "6"
    } else if d == 7 {
        "7"
    } else if d == 8 {
        "8"
    } else {
        "9"
    }
}

/// Writes a number in decimal, as `Display` of an unsigned integer does.
pub fn decimal_string(n: u64) -> (r: String)
    ensures
        r@ == decimal_text(n as nat),
    decreases n,
{
    if n < 10 {
        digit_str(n).to_owned()
    } else {
        let mut s = decimal_string(n / 10);
        s.append(digit_str(n % 10));
        s
    }
}

/// The lower-case hexadecimal digit of a number below sixteen.
pub open spec fn hex_digit_char(d: nat) -> char {
    if d < 10 {
        digit_char(d)
    } else if d == 10 {
        'a'
    } else if d == 11 {
        'b'
    } else if d == 12 {
        'c'
    } else if d == 13 {
        'd'
    } else if d == 14 {
        'e'
    } else {
        'f'
    }
}

/// How a byte is written inside a quoted byte string: tab, carriage return, line
/// feed, quotes and backslash by a backslash escape, other printable ASCII as
/// itself and every other byte as `\x` and two lower-case hex digits (the
/// escaping of `u8::escape_ascii`).
pub open spec fn escaped_byte(b: u8) -> Seq<char> {
    if b == 0x09 {
        seq!['\\', 't']
    } else if b == 0x0d {
        seq!['\\', 'r']
    } else if b == 0x0a {
        seq!['\\', 'n']
    } else if b == 0x27 {
        seq!['\\', '\'']
    } else if b == 0x22 {
        seq!['\\', '"']
    } else if b == 0x5c {
        seq!['\\', '\\']
    } else if 0x20 <= b && b <= 0x7e {
        seq![b as char]
    } else {
        seq!['\\', 'x', hex_digit_char((b / 16) as nat), hex_digit_char((b % 16) as nat)]
    }
}

/// The bytes escaped one by one.
pub open spec fn escaped_bytes(bytes: Seq<u8>) -> Seq<char>
    decreases bytes.len(),
{
    if bytes.len() == 0 {
        Seq::empty()
    } else {
        escaped_bytes(bytes.drop_last()) + escaped_byte(bytes.last())
    }
}

/// How `Debug` writes a C string (given without its nul): the escaped bytes
/// between double quotes.
pub open spec fn quoted_bytes_text(bytes: Seq<u8>) -> Seq<char> {
    seq!['"'] + escaped_bytes(bytes) + seq!['"']
}

/// The quoted names, separated by a comma and a space.
pub open spec fn quoted_list_items(names: Seq<Seq<u8>>) -> Seq<char>
    decreases names.len(),
{
    if names.len() == 0 {
        Seq::empty()
    } else if names.len() == 1 {
        quoted_bytes_text(names[0])
    } else {
        quoted_list_items(names.drop_last()) + seq![',', ' '] + quoted_bytes_text(names.last())
    }
}

/// How `Debug` writes a list of C strings: the quoted names between square
/// brackets.
pub open spec fn quoted_list_text(names: Seq<Seq<u8>>) -> Seq<char> {
    seq!['['] + quoted_list_items(names) + seq![']']
}

/// `String::push`, which appends a character.
#[verifier::external_body]
fn push_char(s: &mut String, c: char)
    ensures
        final(s)@ == old(s)@.push(c),
{
    s.push(c);
}

fn hex_digit(d: u8) -> (c: char)
    requires
        d < 16,
    ensures
        c == hex_digit_char(d as nat),
{
    if d == 0 {
        '0'
    } else if d == 1 {
        '1'
    } else if d == 2 {
        '2'
    } else if d == 3 {
        '3'
    } else if d == 4 {
        '4'
    } else if d == 5 {
        '5'
    } else if d == 6 {
        '6'
    } else if d == 7 {
        '7'
    } else if d == 8 {
        '8'
    } else if d == 9 {
        '9'
    } else if d == 10 {
        'a'
    } else if d == 11 {
        'b'
    } else if d == 12 {
        'c'
    } else if d == 13 {
        'd'
    } else if d == 14 {
        'e'
    } else {
        'f'
    }
}

fn push_escaped_byte(s: &mut String, b: u8)
    ensures
        final(s)@ == old(s)@ + escaped_byte(b),
{
    if b == 0x09 {
        push_char(s, '\\');
        push_char(s, 't');
    } else if b == 0x0d {
        push_char(s, '\\');
        push_char(s, 'r');
    } else if b == 0x0a {
        push_char(s, '\\');
        push_char(s, 'n');
    } else if b == 0x27 {
        push_char(s, '\\');
        push_char(s, '\'');
    } else if b == 0x22 {
        push_char(s, '\\');
        push_char(s, '"');
    } else if b == 0x5c {
        push_char(s, '\\');
        push_char(s, '\\');
    } else if 0x20 <= b && b <= 0x7e {
        push_char(s, b as char);
    } else {
        push_char(s, '\\');
        push_char(s, 'x');
        push_char(s, hex_digit(b / 16));
        push_char(s, hex_digit(b % 16));
    }
}

fn push_quoted_bytes(s: &mut String, bytes: &Vec<u8>)
    ensures
        final(s)@ == old(s)@ + quoted_bytes_text(bytes@),
{
    let ghost start = s@;
    push_char(s, '"');
    let mut i: usize = 0;
    while i < bytes.len()
        invariant
            i <= bytes@.len(),
            s@ == start + seq!['"'] + escaped_bytes(bytes@.take(i as int)),
        decreases bytes@.len() - i,
    {
        proof {
            assert(bytes@.take(i + 1).drop_last() =~= bytes@.take(i as int));
        }
        push_escaped_byte(s, bytes[i]);
        i = i + 1;
    }
    push_char(s, '"');
    proof {
        assert(bytes@.take(bytes@.len() as int) =~= bytes@);
        assert(s@ =~= start + quoted_bytes_text(bytes@));
    }
}

/// Writes a list of C strings (given without their nuls) as `Debug` of a
/// `Vec<CString>` does.
pub fn quoted_list_string(names: &Vec<Vec<u8>>) -> (r: String)
    ensures
        r@ == quoted_list_text(names.deep_view()),
{
    let ghost all = names.deep_view();
    let mut s = String::new();
    push_char(&mut s, '[');
    let mut i: usize = 0;
    while i < names.len()
        invariant
            i <= names@.len(),
            all == names.deep_view(),
            all.len() == names@.len(),
            s@ == seq!['['] + quoted_list_items(all.take(i as int)),
        decreases names@.len() - i,
    {
        let ghost before = s@;
        proof {
            assert(all[i as int] == names@[i as int]@);
            assert(all.take(i + 1).drop_last() =~= all.take(i as int));
        }
        if i > 0 {
            push_char(&mut s, ',');
            push_char(&mut s, ' ');
        }
        push_quoted_bytes(&mut s, &names[i]);
        proof {
            if i == 0 {
                assert(s@ =~= seq!['['] + quoted_list_items(all.take(1)));
            } else {
                assert(s@ =~= seq!['['] + quoted_list_items(all.take(i + 1)));
            }
        }
        i = i + 1;
    }
    push_char(&mut s, ']');
    proof {
        assert(all.take(all.len() as int) =~= all);
    }
    s
}

/// The text that `Display` of `ash::vk::Result` writes for a result code: a
/// fixed description for the result codes of core Vulkan, the `Debug` name of the
/// code otherwise.
pub uninterp spec fn vk_result_display_text(code: i32) -> Seq<char>;

/// Writes `ash::vk::Result::from_raw(code)` through its `Display` impl. The
/// contract names the text rather than stating ash's table of descriptions.
#[verifier::external_body]
pub(crate) fn vk_result_text(code: i32) -> (r: String)
    ensures
        r@ == vk_result_display_text(code),
{
    ash::vk::Result::from_raw(code).to_string()
}

} // verus!
