//! Text: decimal numbers, and lists of names separated by commas.

use vstd::prelude::*;
use vstd::string::*;

verus! {

/// The text of one decimal digit.
pub open spec fn digit_text(d: nat) -> Seq<char> {
    if d == 0 {
        "0"@
    } else if d == 1 {
        "1"@
    } else if d == 2 {
        "2"@
    } else if d == 3 {
        "3"@
    } else if d == 4 {
        "4"@
    } else if d == 5 {
        "5"@
    } else if d == 6 {
        "6"@
    } else if d == 7 {
        "7"@
    } else if d == 8 {
        "8"@
    } else {
        "9"@
    }
}

/// A number in decimal, without leading zeros.
pub open spec fn decimal(n: nat) -> Seq<char>
    decreases n,
{
    if n < 10 {
        digit_text(n)
    } else {
        decimal(n / 10) + digit_text(n % 10)
    }
}

/// The text of one decimal digit.
fn digit(d: u128) -> (r: &'static str)
    requires
        d < 10,
    ensures
        r@ == digit_text(d as nat),
{
    match d {
        0 => "0",
        1 => "1",
        2 => "2",
        3 => "3",
        4 => "4",
        5 => "5",
        6 => "6",
        7 => "7",
        8 => "8",
        _ => "9",
    }
}

/// A number in decimal.
pub fn to_decimal(n: u128) -> (r: String)
    ensures
        r@ == decimal(n as nat),
    decreases n,
{
    if n < 10 {
        String::from_str(digit(n))
    } else {
        let mut text = to_decimal(n / 10);
        text.append(digit(n % 10));
        text
    }
}

/// The characters that Unicode counts as white space.
pub open spec fn white_space(c: char) -> bool {
    ||| 0x9 <= c as u32 <= 0xD
    ||| c as u32 == 0x20
    ||| c as u32 == 0x85
    ||| c as u32 == 0xA0
    ||| c as u32 == 0x1680
    ||| 0x2000 <= c as u32 <= 0x200A
    ||| c as u32 == 0x2028
    ||| c as u32 == 0x2029
    ||| c as u32 == 0x202F
    ||| c as u32 == 0x205F
    ||| c as u32 == 0x3000
}

/// A text without the white space it starts with.
pub open spec fn trim_start(s: Seq<char>) -> Seq<char>
    decreases s.len(),
{
    if s.len() > 0 && white_space(s[0]) {
        trim_start(s.subrange(1, s.len() as int))
    } else {
        s
    }
}

/// A text without the white space it ends with.
pub open spec fn trim_end(s: Seq<char>) -> Seq<char>
    decreases s.len(),
{
    if s.len() > 0 && white_space(s[s.len() - 1]) {
        trim_end(s.subrange(0, s.len() - 1))
    } else {
        s
    }
}

/// A text without the white space around it.
pub open spec fn trim(s: Seq<char>) -> Seq<char> {
    trim_end(trim_start(s))
}

/// Whether the characters from `from` to `to` are one entry of a list separated by commas.
pub open spec fn is_entry(list: Seq<char>, from: int, to: int) -> bool {
    &&& 0 <= from <= to <= list.len()
    &&& from == 0 || list[from - 1] == ','
    &&& to == list.len() || list[to] == ','
    &&& forall|i: int| from <= i < to ==> list[i] != ','
}

/// Whether an entry of the list is `name`, white space around it aside.
pub open spec fn names(list: Seq<char>, name: Seq<char>) -> bool {
    exists|from: int, to: int| #[trigger]
        is_entry(list, from, to) && trim(list.subrange(from, to)) == name
}

/// Whether Unicode counts `c` as white space.
fn is_white_space(c: char) -> (r: bool)
    ensures
        r == white_space(c),
{
    let n = c as u32;
    (0x9 <= n && n <= 0xD) || n == 0x20 || n == 0x85 || n == 0xA0 || n == 0x1680 || (0x2000 <= n
        && n <= 0x200A) || n == 0x2028 || n == 0x2029 || n == 0x202F || n == 0x205F || n == 0x3000
}

/// The characters of a text.
pub fn to_chars(s: &str) -> (r: Vec<char>)
    ensures
        r@ == s@,
{
    let len = s.unicode_len();
    let mut out: Vec<char> = Vec::new();
    let mut i: usize = 0;
    while i < len
        invariant
            i <= len == s@.len(),
            out@ == s@.subrange(0, i as int),
        decreases len - i,
    {
        out.push(s.get_char(i));
        i = i + 1;
        assert(out@ =~= s@.subrange(0, i as int));
    }
    assert(out@ =~= s@);
    out
}

/// Whether the characters from `from` to `to` are `name`, white space around them aside.
fn entry_is(list: &Vec<char>, from: usize, to: usize, name: &Vec<char>) -> (r: bool)
    requires
        from <= to <= list@.len(),
    ensures
        r == (trim(list@.subrange(from as int, to as int)) == name@),
{
    let mut a: usize = from;
    while a < to && is_white_space(list[a])
        invariant
            from <= a <= to <= list@.len(),
            trim_start(list@.subrange(from as int, to as int)) == trim_start(
                list@.subrange(a as int, to as int),
            ),
        decreases to - a,
    {
        proof {
            let s = list@.subrange(a as int, to as int);
            assert(s[0] == list@[a as int]);
            assert(s.subrange(1, s.len() as int) =~= list@.subrange(a + 1, to as int));
        }
        a = a + 1;
    }
    let mut b: usize = to;
    let ghost body = list@.subrange(a as int, to as int);
    assert(a < to ==> body[0] == list@[a as int]);
    assert(trim_start(body) == body);
    while a < b && is_white_space(list[b - 1])
        invariant
            a <= b <= to <= list@.len(),
            trim_end(body) == trim_end(list@.subrange(a as int, b as int)),
        decreases b - a,
    {
        proof {
            let s = list@.subrange(a as int, b as int);
            assert(s[s.len() - 1] == list@[b - 1]);
            assert(s.subrange(0, s.len() - 1) =~= list@.subrange(a as int, b - 1));
        }
        b = b - 1;
    }
    let ghost core = list@.subrange(a as int, b as int);
    assert(a < b ==> core[core.len() - 1] == list@[b - 1]);
    assert(trim_end(core) == core);
    if b - a != name.len() {
        return false;
    }
    let mut i: usize = 0;
    while i < name.len()
        invariant
            i <= name@.len(),
            a <= b <= list@.len(),
            b - a == name@.len(),
            core == list@.subrange(a as int, b as int),
            core == trim(list@.subrange(from as int, to as int)),
            forall|j: int| 0 <= j < i ==> core[j] == name@[j],
        decreases name@.len() - i,
    {
        if list[a + i] != name[i] {
            assert(core[i as int] != name@[i as int]);
            return false;
        }
        i = i + 1;
    }
    assert(core =~= name@);
    true
}

/// Whether an entry of the list is `name`, white space around it aside.
pub fn list_names(list: &str, name: &str) -> (r: bool)
    ensures
        r == names(list@, name@),
{
    let chars = to_chars(list);
    let wanted = to_chars(name);
    let mut from: usize = 0;
    let mut at: usize = 0;
    while at < chars.len()
        invariant
            from <= at <= chars@.len(),
            chars@ == list@,
            wanted@ == name@,
            from == 0 || chars@[from - 1] == ',',
            forall|i: int| from <= i < at ==> chars@[i] != ',',
            forall|a: int, b: int| #[trigger]
                is_entry(chars@, a, b) && a < from ==> trim(chars@.subrange(a, b)) != name@,
        decreases chars@.len() - at,
    {
        if chars[at] == ',' {
            if entry_is(&chars, from, at, &wanted) {
                assert(is_entry(list@, from as int, at as int));
                return true;
            }
            proof {
                assert forall|a: int, b: int| #[trigger]
                    is_entry(chars@, a, b) && a < at + 1 implies trim(chars@.subrange(a, b))
                    != name@ by {
                    if a >= from {
                        if a > from {
                            assert(chars@[a - 1] == ',');
                        }
                        if b > at {
                            assert(chars@[at as int] != ',');
                        }
                        if b < at {
                            assert(chars@[b] == ',');
                        }
                    }
                }
            }
            from = at + 1;
        }
        at = at + 1;
    }
    if entry_is(&chars, from, at, &wanted) {
        assert(is_entry(list@, from as int, at as int));
        true
    } else {
        proof {
            assert forall|a: int, b: int| #[trigger] is_entry(chars@, a, b) implies trim(
                chars@.subrange(a, b),
            ) != name@ by {
                if a > from {
                    assert(chars@[a - 1] == ',');
                }
                if a >= from && b < at {
                    assert(chars@[b] == ',');
                }
            }
        }
        false
    }
}

} // verus!
