//! What holds of the texts: numbers read back, and lists name exactly their entries.

use vstd::prelude::*;

use crate::text::{decimal, digit_text, is_entry, names, trim, trim_end, trim_start, white_space};

verus! {

// ---- numbers ----

/// The number that a text of decimal digits stands for.
pub open spec fn value_of(text: Seq<char>) -> int
    decreases text.len(),
{
    if text.len() == 0 {
        0
    } else {
        10 * value_of(text.drop_last()) + (text.last() as int - '0' as int)
    }
}

/// A number in decimal is made of digits, reads back as that number, and starts with a zero only
/// where it is zero.
pub proof fn law_decimals_read_back(n: nat)
    ensures
        value_of(decimal(n)) == n,
        decimal(n).len() > 0,
        forall|i: int| 0 <= i < decimal(n).len() ==> '0' <= #[trigger] decimal(n)[i] <= '9',
        n > 0 ==> decimal(n)[0] != '0',
        n == 0 ==> decimal(n) == seq!['0'],
    decreases n,
{
    lemma_digit_text(n % 10);
    if n < 10 {
        let text = digit_text(n);
        assert(text.drop_last() =~= Seq::empty());
        reveal_with_fuel(value_of, 2);
    } else {
        law_decimals_read_back(n / 10);
        let head = decimal(n / 10);
        let text = head + digit_text(n % 10);
        assert(text.drop_last() =~= head);
        assert(text.last() == digit_text(n % 10)[0]);
        assert(text[0] == head[0]);
    }
}

/// The text of a digit is one character, as far from zero as the digit.
proof fn lemma_digit_text(d: nat)
    requires
        d < 10,
    ensures
        digit_text(d) =~= seq![('0' as int + d) as char],
        digit_text(d).len() == 1,
        digit_text(d)[0] as int == '0' as int + d,
{
    reveal_strlit("0");
    reveal_strlit("1");
    reveal_strlit("2");
    reveal_strlit("3");
    reveal_strlit("4");
    reveal_strlit("5");
    reveal_strlit("6");
    reveal_strlit("7");
    reveal_strlit("8");
    reveal_strlit("9");
}

/// Two numbers with the same text are the same number.
pub proof fn law_decimals_tell_numbers_apart(a: nat, b: nat)
    ensures
        decimal(a) == decimal(b) ==> a == b,
{
    law_decimals_read_back(a);
    law_decimals_read_back(b);
}

// ---- white space ----

/// Of the ASCII characters, white space are the space and those from the tab to the carriage
/// return; beyond, it is the next line and the spaces and separators of Unicode.
pub proof fn law_white_space_is_what_unicode_says(c: char)
    ensures
        (c as int) < 128 ==> (white_space(c) <==> c == ' ' || c == '\t' || c == '\n' || c as int
            == 11 || c as int == 12 || c == '\r'),
        128 <= c as int && (c as int) < 8192 ==> (white_space(c) <==> c as int == 0x85 || c as int
            == 0xA0 || c as int == 0x1680),
        8192 <= c as int ==> (white_space(c) <==> 0x2000 <= c as int <= 0x200A || c as int == 0x2028
            || c as int == 0x2029 || c as int == 0x202F || c as int == 0x205F || c as int
            == 0x3000),
{
}

/// Whether a text is white space throughout.
pub open spec fn blank(text: Seq<char>) -> bool {
    forall|i: int| 0 <= i < text.len() ==> white_space(#[trigger] text[i])
}

/// Trimming takes white space off both ends and nothing else, and leaves none there.
pub proof fn law_trimming_takes_white_space_off_the_ends(s: Seq<char>)
    ensures
        exists|a: int, b: int|
            0 <= a <= b <= s.len() && trim(s) == #[trigger] s.subrange(a, b) && blank(
                s.subrange(0, a),
            ) && blank(s.subrange(b, s.len() as int)),
        trim(s).len() > 0 ==> !white_space(trim(s)[0]) && !white_space(trim(s)[trim(s).len() - 1]),
{
    let a = lemma_trim_start(s);
    let body = s.subrange(a, s.len() as int);
    let b = lemma_trim_end(body);
    let core = body.subrange(0, b);
    assert(core =~= s.subrange(a, a + b));
    assert forall|i: int| 0 <= i < s.len() - (a + b) implies white_space(
        #[trigger] s.subrange(a + b, s.len() as int)[i],
    ) by {
        assert(body.subrange(b, body.len() as int)[i] == s[a + b + i]);
    }
    if core.len() > 0 {
        assert(core[0] == body[0]);
    }
}

/// What is left behind the white space that a text starts with.
proof fn lemma_trim_start(s: Seq<char>) -> (a: int)
    ensures
        0 <= a <= s.len(),
        trim_start(s) == s.subrange(a, s.len() as int),
        blank(s.subrange(0, a)),
        a < s.len() ==> !white_space(s[a]),
    decreases s.len(),
{
    if s.len() > 0 && white_space(s[0]) {
        let rest = s.subrange(1, s.len() as int);
        let b = lemma_trim_start(rest);
        assert(rest.subrange(b, rest.len() as int) =~= s.subrange(b + 1, s.len() as int));
        assert forall|i: int| 0 <= i < b + 1 implies white_space(
            #[trigger] s.subrange(0, b + 1)[i],
        ) by {
            if i > 0 {
                assert(rest.subrange(0, b)[i - 1] == s[i]);
            }
        }
        b + 1
    } else {
        assert(s.subrange(0, s.len() as int) =~= s);
        0
    }
}

/// What is left before the white space that a text ends with.
proof fn lemma_trim_end(s: Seq<char>) -> (b: int)
    ensures
        0 <= b <= s.len(),
        trim_end(s) == s.subrange(0, b),
        blank(s.subrange(b, s.len() as int)),
        b > 0 ==> !white_space(s[b - 1]),
    decreases s.len(),
{
    if s.len() > 0 && white_space(s[s.len() - 1]) {
        let rest = s.subrange(0, s.len() - 1);
        let b = lemma_trim_end(rest);
        assert(rest.subrange(0, b) =~= s.subrange(0, b));
        assert forall|i: int| 0 <= i < s.len() - b implies white_space(
            #[trigger] s.subrange(b, s.len() as int)[i],
        ) by {
            if b + i < rest.len() {
                assert(rest.subrange(b, rest.len() as int)[i] == s[b + i]);
            }
        }
        b
    } else {
        assert(s.subrange(0, s.len() as int) =~= s);
        s.len() as int
    }
}

// ---- lists ----

/// A list without a comma names what is left of it without the white space around it, and nothing
/// else.
pub proof fn law_single_entry_is_named(entry: Seq<char>, name: Seq<char>)
    requires
        forall|i: int| 0 <= i < entry.len() ==> #[trigger] entry[i] != ',',
    ensures
        names(entry, name) <==> trim(entry) == name,
{
    assert(entry.subrange(0, entry.len() as int) =~= entry);
    assert(is_entry(entry, 0, entry.len() as int));
    if names(entry, name) {
        let (from, to) = choose|from: int, to: int| #[trigger]
            is_entry(entry, from, to) && trim(entry.subrange(from, to)) == name;
        assert(from == 0);
        assert(to == entry.len());
    }
}

/// Two lists with a comma between them name what either of them names, and nothing else.
pub proof fn law_lists_name_what_their_parts_name(a: Seq<char>, b: Seq<char>, name: Seq<char>)
    ensures
        names(a + seq![','] + b, name) <==> names(a, name) || names(b, name),
{
    let list = a + seq![','] + b;
    let cut = a.len() as int;
    assert(list[cut] == ',');
    if names(list, name) {
        let (from, to) = choose|from: int, to: int| #[trigger]
            is_entry(list, from, to) && trim(list.subrange(from, to)) == name;
        if from <= cut {
            assert(to <= cut);
            assert(list.subrange(from, to) =~= a.subrange(from, to));
            assert(from > 0 ==> a[from - 1] == list[from - 1]);
            assert(to < cut ==> a[to] == list[to]);
            assert forall|i: int| from <= i < to implies a[i] != ',' by {
                assert(a[i] == list[i]);
            }
            assert(is_entry(a, from, to));
        } else {
            let (f, t) = (from - cut - 1, to - cut - 1);
            assert(list.subrange(from, to) =~= b.subrange(f, t));
            assert(f > 0 ==> b[f - 1] == list[from - 1]);
            assert(t < b.len() ==> b[t] == list[to]);
            assert forall|i: int| f <= i < t implies b[i] != ',' by {
                assert(b[i] == list[i + cut + 1]);
            }
            assert(is_entry(b, f, t));
        }
    }
    if names(a, name) {
        let (from, to) = choose|from: int, to: int| #[trigger]
            is_entry(a, from, to) && trim(a.subrange(from, to)) == name;
        assert(list.subrange(from, to) =~= a.subrange(from, to));
        assert forall|i: int| from <= i < to implies list[i] != ',' by {
            assert(a[i] == list[i]);
        }
        assert(is_entry(list, from, to));
    }
    if names(b, name) {
        let (from, to) = choose|from: int, to: int| #[trigger]
            is_entry(b, from, to) && trim(b.subrange(from, to)) == name;
        let (f, t) = (from + cut + 1, to + cut + 1);
        assert(list.subrange(f, t) =~= b.subrange(from, to));
        assert(f > cut + 1 ==> list[f - 1] == b[from - 1]);
        assert forall|i: int| f <= i < t implies list[i] != ',' by {
            assert(list[i] == b[i - cut - 1]);
        }
        assert(is_entry(list, f, t));
    }
}

} // verus!
