//! Every key name resolves back to its key. The name table is taken in parts of
//! eight, whose names are spelled out character by character, so that a lookup can be
//! followed one comparison at a time.

use vstd::prelude::*;
use crate::keys::{
    Key, key_name, key_of_name, key_lookup, key_names_lower, bracketed, InputSnapshot, Modifiers,
    binding_pressed, combo_text, key_went_down, law_captured_binding_triggers,
};
use crate::text::{lowercase, is_ascii_chars};

verus! {

/// Entries 0 to 7 of the key name table.
spec fn names_part0() -> Seq<(Seq<char>, Key)> {
    seq![
        (seq!['a', 'r', 'r', 'o', 'w', 'l', 'e', 'f', 't'], Key::ArrowLeft),
        (seq!['l', 'e', 'f', 't'], Key::ArrowLeft),
        (seq!['a', 'r', 'r', 'o', 'w', 'r', 'i', 'g', 'h', 't'], Key::ArrowRight),
        (seq!['r', 'i', 'g', 'h', 't'], Key::ArrowRight),
        (seq!['a', 'r', 'r', 'o', 'w', 'u', 'p'], Key::ArrowUp),
        (seq!['u', 'p'], Key::ArrowUp),
        (seq!['a', 'r', 'r', 'o', 'w', 'd', 'o', 'w', 'n'], Key::ArrowDown),
        (seq!['d', 'o', 'w', 'n'], Key::ArrowDown),
    ]
}

/// Entries 8 to 15 of the key name table.
spec fn names_part1() -> Seq<(Seq<char>, Key)> {
    seq![
        (seq!['e', 'n', 't', 'e', 'r'], Key::Enter),
        (seq!['e', 's', 'c', 'a', 'p', 'e'], Key::Escape),
        (seq!['e', 's', 'c'], Key::Escape),
        (seq!['s', 'p', 'a', 'c', 'e'], Key::Space),
        (seq!['b', 'a', 'c', 'k', 's', 'p', 'a', 'c', 'e'], Key::Backspace),
        (seq!['b', 's'], Key::Backspace),
        (seq!['t', 'a', 'b'], Key::Tab),
        (seq!['h', 'o', 'm', 'e'], Key::Home),
    ]
}

/// Entries 16 to 23 of the key name table.
spec fn names_part2() -> Seq<(Seq<char>, Key)> {
    seq![
        (seq!['e', 'n', 'd'], Key::End),
        (seq!['p', 'a', 'g', 'e', 'u', 'p'], Key::PageUp),
        (seq!['p', 'g', 'u', 'p'], Key::PageUp),
        (seq!['p', 'a', 'g', 'e', 'd', 'o', 'w', 'n'], Key::PageDown),
        (seq!['p', 'g', 'd', 'n'], Key::PageDown),
        (seq!['p', 'l', 'u', 's'], Key::Plus),
        (seq!['e', 'q', 'u', 'a', 'l', 's'], Key::Equals),
        (seq!['m', 'i', 'n', 'u', 's'], Key::Minus),
    ]
}

/// Entries 24 to 31 of the key name table.
spec fn names_part3() -> Seq<(Seq<char>, Key)> {
    seq![
        (seq!['f', '1'], Key::F1),
        (seq!['f', '2'], Key::F2),
        (seq!['f', '3'], Key::F3),
        (seq!['f', '4'], Key::F4),
        (seq!['f', '5'], Key::F5),
        (seq!['f', '6'], Key::F6),
        (seq!['f', '7'], Key::F7),
        (seq!['f', '8'], Key::F8),
    ]
}

/// Entries 32 to 39 of the key name table.
spec fn names_part4() -> Seq<(Seq<char>, Key)> {
    seq![
        (seq!['f', '9'], Key::F9),
        (seq!['f', '1', '0'], Key::F10),
        (seq!['f', '1', '1'], Key::F11),
        (seq!['f', '1', '2'], Key::F12),
        (seq!['a'], Key::A),
        (seq!['b'], Key::B),
        (seq!['c'], Key::C),
        (seq!['d'], Key::D),
    ]
}

/// Entries 40 to 47 of the key name table.
spec fn names_part5() -> Seq<(Seq<char>, Key)> {
    seq![
        (seq!['e'], Key::E),
        (seq!['f'], Key::F),
        (seq!['g'], Key::G),
        (seq!['h'], Key::H),
        (seq!['i'], Key::I),
        (seq!['j'], Key::J),
        (seq!['k'], Key::K),
        (seq!['l'], Key::L),
    ]
}

/// Entries 48 to 55 of the key name table.
spec fn names_part6() -> Seq<(Seq<char>, Key)> {
    seq![
        (seq!['m'], Key::M),
        (seq!['n'], Key::N),
        (seq!['o'], Key::O),
        (seq!['p'], Key::P),
        (seq!['q'], Key::Q),
        (seq!['r'], Key::R),
        (seq!['s'], Key::S),
        (seq!['t'], Key::T),
    ]
}

/// Entries 56 to 63 of the key name table.
spec fn names_part7() -> Seq<(Seq<char>, Key)> {
    seq![
        (seq!['u'], Key::U),
        (seq!['v'], Key::V),
        (seq!['w'], Key::W),
        (seq!['x'], Key::X),
        (seq!['y'], Key::Y),
        (seq!['z'], Key::Z),
        (seq!['0'], Key::Num0),
        (seq!['1'], Key::Num1),
    ]
}

/// Entries 64 to 71 of the key name table.
spec fn names_part8() -> Seq<(Seq<char>, Key)> {
    seq![
        (seq!['2'], Key::Num2),
        (seq!['3'], Key::Num3),
        (seq!['4'], Key::Num4),
        (seq!['5'], Key::Num5),
        (seq!['6'], Key::Num6),
        (seq!['7'], Key::Num7),
        (seq!['8'], Key::Num8),
        (seq!['9'], Key::Num9),
    ]
}

/// The key name table is its parts, one after the other.
proof fn lemma_table_parts()
    ensures
        key_names_lower() == names_part0() + names_part1() + names_part2() + names_part3() + names_part4() + names_part5() + names_part6() + names_part7() + names_part8(),
{
    reveal_strlit("arrowleft");
    reveal_strlit("left");
    reveal_strlit("arrowright");
    reveal_strlit("right");
    reveal_strlit("arrowup");
    reveal_strlit("up");
    reveal_strlit("arrowdown");
    reveal_strlit("down");
    reveal_strlit("enter");
    reveal_strlit("escape");
    reveal_strlit("esc");
    reveal_strlit("space");
    reveal_strlit("backspace");
    reveal_strlit("bs");
    reveal_strlit("tab");
    reveal_strlit("home");
    reveal_strlit("end");
    reveal_strlit("pageup");
    reveal_strlit("pgup");
    reveal_strlit("pagedown");
    reveal_strlit("pgdn");
    reveal_strlit("plus");
    reveal_strlit("equals");
    reveal_strlit("minus");
    reveal_strlit("f1");
    reveal_strlit("f2");
    reveal_strlit("f3");
    reveal_strlit("f4");
    reveal_strlit("f5");
    reveal_strlit("f6");
    reveal_strlit("f7");
    reveal_strlit("f8");
    reveal_strlit("f9");
    reveal_strlit("f10");
    reveal_strlit("f11");
    reveal_strlit("f12");
    reveal_strlit("a");
    reveal_strlit("b");
    reveal_strlit("c");
    reveal_strlit("d");
    reveal_strlit("e");
    reveal_strlit("f");
    reveal_strlit("g");
    reveal_strlit("h");
    reveal_strlit("i");
    reveal_strlit("j");
    reveal_strlit("k");
    reveal_strlit("l");
    reveal_strlit("m");
    reveal_strlit("n");
    reveal_strlit("o");
    reveal_strlit("p");
    reveal_strlit("q");
    reveal_strlit("r");
    reveal_strlit("s");
    reveal_strlit("t");
    reveal_strlit("u");
    reveal_strlit("v");
    reveal_strlit("w");
    reveal_strlit("x");
    reveal_strlit("y");
    reveal_strlit("z");
    reveal_strlit("0");
    reveal_strlit("1");
    reveal_strlit("2");
    reveal_strlit("3");
    reveal_strlit("4");
    reveal_strlit("5");
    reveal_strlit("6");
    reveal_strlit("7");
    reveal_strlit("8");
    reveal_strlit("9");
    assert(key_names_lower() =~~= names_part0() + names_part1() + names_part2() + names_part3() + names_part4() + names_part5() + names_part6() + names_part7() + names_part8());
}

/// Looking up in two tables one after the other.
proof fn lemma_lookup_concat(a: Seq<(Seq<char>, Key)>, b: Seq<(Seq<char>, Key)>, s: Seq<char>)
    ensures
        key_lookup(a + b, s) == match key_lookup(a, s) {
            Some(k) => Some(k),
            None => key_lookup(b, s),
        },
    decreases a.len(),
{
    if a.len() > 0 {
        assert((a + b).drop_first() =~= a.drop_first() + b);
        lemma_lookup_concat(a.drop_first(), b, s);
    } else {
        assert(a + b =~= b);
    }
}

/// Looking up in the whole table goes through its parts in order.
proof fn lemma_lookup_parts(s: Seq<char>)
    ensures
        key_lookup(key_names_lower(), s) == match key_lookup(names_part0(), s) {
            Some(k) => Some(k),
            None => match key_lookup(names_part1(), s) {
            Some(k) => Some(k),
            None => match key_lookup(names_part2(), s) {
            Some(k) => Some(k),
            None => match key_lookup(names_part3(), s) {
            Some(k) => Some(k),
            None => match key_lookup(names_part4(), s) {
            Some(k) => Some(k),
            None => match key_lookup(names_part5(), s) {
            Some(k) => Some(k),
            None => match key_lookup(names_part6(), s) {
            Some(k) => Some(k),
            None => match key_lookup(names_part7(), s) {
            Some(k) => Some(k),
            None => key_lookup(names_part8(), s),
        },
        },
        },
        },
        },
        },
        },
        },
{
    lemma_table_parts();
    lemma_lookup_concat(names_part0(), names_part1(), s);
    lemma_lookup_concat(names_part0() + names_part1(), names_part2(), s);
    lemma_lookup_concat(names_part0() + names_part1() + names_part2(), names_part3(), s);
    lemma_lookup_concat(names_part0() + names_part1() + names_part2() + names_part3(), names_part4(), s);
    lemma_lookup_concat(names_part0() + names_part1() + names_part2() + names_part3() + names_part4(), names_part5(), s);
    lemma_lookup_concat(names_part0() + names_part1() + names_part2() + names_part3() + names_part4() + names_part5(), names_part6(), s);
    lemma_lookup_concat(names_part0() + names_part1() + names_part2() + names_part3() + names_part4() + names_part5() + names_part6(), names_part7(), s);
    lemma_lookup_concat(names_part0() + names_part1() + names_part2() + names_part3() + names_part4() + names_part5() + names_part6() + names_part7(), names_part8(), s);
}

/// A lookup in a table of eight entries compares with each of them in order.
proof fn lemma_unfold(t: Seq<(Seq<char>, Key)>, s: Seq<char>)
    ensures
        t.len() == 8 ==> key_lookup(t, s) == if t[0].0 == s {
            Some(t[0].1)
        } else if t[1].0 == s {
            Some(t[1].1)
        } else if t[2].0 == s {
            Some(t[2].1)
        } else if t[3].0 == s {
            Some(t[3].1)
        } else if t[4].0 == s {
            Some(t[4].1)
        } else if t[5].0 == s {
            Some(t[5].1)
        } else if t[6].0 == s {
            Some(t[6].1)
        } else if t[7].0 == s {
            Some(t[7].1)
        } else {
            None
        },
{
    reveal_with_fuel(key_lookup, 9);
}

/// Looking up in part 0 compares with its names in order.
proof fn lemma_part0(s: Seq<char>)
    ensures
        key_lookup(names_part0(), s) == if s == seq!['a', 'r', 'r', 'o', 'w', 'l', 'e', 'f', 't'] {
            Some(Key::ArrowLeft)
        } else if s == seq!['l', 'e', 'f', 't'] {
            Some(Key::ArrowLeft)
        } else if s == seq!['a', 'r', 'r', 'o', 'w', 'r', 'i', 'g', 'h', 't'] {
            Some(Key::ArrowRight)
        } else if s == seq!['r', 'i', 'g', 'h', 't'] {
            Some(Key::ArrowRight)
        } else if s == seq!['a', 'r', 'r', 'o', 'w', 'u', 'p'] {
            Some(Key::ArrowUp)
        } else if s == seq!['u', 'p'] {
            Some(Key::ArrowUp)
        } else if s == seq!['a', 'r', 'r', 'o', 'w', 'd', 'o', 'w', 'n'] {
            Some(Key::ArrowDown)
        } else if s == seq!['d', 'o', 'w', 'n'] {
            Some(Key::ArrowDown)
        } else {
            None
        },
{
    lemma_unfold(names_part0(), s);
}

/// Looking up in part 1 compares with its names in order.
proof fn lemma_part1(s: Seq<char>)
    ensures
        key_lookup(names_part1(), s) == if s == seq!['e', 'n', 't', 'e', 'r'] {
            Some(Key::Enter)
        } else if s == seq!['e', 's', 'c', 'a', 'p', 'e'] {
            Some(Key::Escape)
        } else if s == seq!['e', 's', 'c'] {
            Some(Key::Escape)
        } else if s == seq!['s', 'p', 'a', 'c', 'e'] {
            Some(Key::Space)
        } else if s == seq!['b', 'a', 'c', 'k', 's', 'p', 'a', 'c', 'e'] {
            Some(Key::Backspace)
        } else if s == seq!['b', 's'] {
            Some(Key::Backspace)
        } else if s == seq!['t', 'a', 'b'] {
            Some(Key::Tab)
        } else if s == seq!['h', 'o', 'm', 'e'] {
            Some(Key::Home)
        } else {
            None
        },
{
    lemma_unfold(names_part1(), s);
}

/// Looking up in part 2 compares with its names in order.
proof fn lemma_part2(s: Seq<char>)
    ensures
        key_lookup(names_part2(), s) == if s == seq!['e', 'n', 'd'] {
            Some(Key::End)
        } else if s == seq!['p', 'a', 'g', 'e', 'u', 'p'] {
            Some(Key::PageUp)
        } else if s == seq!['p', 'g', 'u', 'p'] {
            Some(Key::PageUp)
        } else if s == seq!['p', 'a', 'g', 'e', 'd', 'o', 'w', 'n'] {
            Some(Key::PageDown)
        } else if s == seq!['p', 'g', 'd', 'n'] {
            Some(Key::PageDown)
        } else if s == seq!['p', 'l', 'u', 's'] {
            Some(Key::Plus)
        } else if s == seq!['e', 'q', 'u', 'a', 'l', 's'] {
            Some(Key::Equals)
        } else if s == seq!['m', 'i', 'n', 'u', 's'] {
            Some(Key::Minus)
        } else {
            None
        },
{
    lemma_unfold(names_part2(), s);
}

/// Looking up in part 3 compares with its names in order.
proof fn lemma_part3(s: Seq<char>)
    ensures
        key_lookup(names_part3(), s) == if s == seq!['f', '1'] {
            Some(Key::F1)
        } else if s == seq!['f', '2'] {
            Some(Key::F2)
        } else if s == seq!['f', '3'] {
            Some(Key::F3)
        } else if s == seq!['f', '4'] {
            Some(Key::F4)
        } else if s == seq!['f', '5'] {
            Some(Key::F5)
        } else if s == seq!['f', '6'] {
            Some(Key::F6)
        } else if s == seq!['f', '7'] {
            Some(Key::F7)
        } else if s == seq!['f', '8'] {
            Some(Key::F8)
        } else {
            None
        },
{
    lemma_unfold(names_part3(), s);
}

/// Looking up in part 4 compares with its names in order.
proof fn lemma_part4(s: Seq<char>)
    ensures
        key_lookup(names_part4(), s) == if s == seq!['f', '9'] {
            Some(Key::F9)
        } else if s == seq!['f', '1', '0'] {
            Some(Key::F10)
        } else if s == seq!['f', '1', '1'] {
            Some(Key::F11)
        } else if s == seq!['f', '1', '2'] {
            Some(Key::F12)
        } else if s == seq!['a'] {
            Some(Key::A)
        } else if s == seq!['b'] {
            Some(Key::B)
        } else if s == seq!['c'] {
            Some(Key::C)
        } else if s == seq!['d'] {
            Some(Key::D)
        } else {
            None
        },
{
    lemma_unfold(names_part4(), s);
}

/// Looking up in part 5 compares with its names in order.
proof fn lemma_part5(s: Seq<char>)
    ensures
        key_lookup(names_part5(), s) == if s == seq!['e'] {
            Some(Key::E)
        } else if s == seq!['f'] {
            Some(Key::F)
        } else if s == seq!['g'] {
            Some(Key::G)
        } else if s == seq!['h'] {
            Some(Key::H)
        } else if s == seq!['i'] {
            Some(Key::I)
        } else if s == seq!['j'] {
            Some(Key::J)
        } else if s == seq!['k'] {
            Some(Key::K)
        } else if s == seq!['l'] {
            Some(Key::L)
        } else {
            None
        },
{
    lemma_unfold(names_part5(), s);
}

/// Looking up in part 6 compares with its names in order.
proof fn lemma_part6(s: Seq<char>)
    ensures
        key_lookup(names_part6(), s) == if s == seq!['m'] {
            Some(Key::M)
        } else if s == seq!['n'] {
            Some(Key::N)
        } else if s == seq!['o'] {
            Some(Key::O)
        } else if s == seq!['p'] {
            Some(Key::P)
        } else if s == seq!['q'] {
            Some(Key::Q)
        } else if s == seq!['r'] {
            Some(Key::R)
        } else if s == seq!['s'] {
            Some(Key::S)
        } else if s == seq!['t'] {
            Some(Key::T)
        } else {
            None
        },
{
    lemma_unfold(names_part6(), s);
}

/// Looking up in part 7 compares with its names in order.
proof fn lemma_part7(s: Seq<char>)
    ensures
        key_lookup(names_part7(), s) == if s == seq!['u'] {
            Some(Key::U)
        } else if s == seq!['v'] {
            Some(Key::V)
        } else if s == seq!['w'] {
            Some(Key::W)
        } else if s == seq!['x'] {
            Some(Key::X)
        } else if s == seq!['y'] {
            Some(Key::Y)
        } else if s == seq!['z'] {
            Some(Key::Z)
        } else if s == seq!['0'] {
            Some(Key::Num0)
        } else if s == seq!['1'] {
            Some(Key::Num1)
        } else {
            None
        },
{
    lemma_unfold(names_part7(), s);
}

/// Looking up in part 8 compares with its names in order.
proof fn lemma_part8(s: Seq<char>)
    ensures
        key_lookup(names_part8(), s) == if s == seq!['2'] {
            Some(Key::Num2)
        } else if s == seq!['3'] {
            Some(Key::Num3)
        } else if s == seq!['4'] {
            Some(Key::Num4)
        } else if s == seq!['5'] {
            Some(Key::Num5)
        } else if s == seq!['6'] {
            Some(Key::Num6)
        } else if s == seq!['7'] {
            Some(Key::Num7)
        } else if s == seq!['8'] {
            Some(Key::Num8)
        } else if s == seq!['9'] {
            Some(Key::Num9)
        } else {
            None
        },
{
    lemma_unfold(names_part8(), s);
}

proof fn lemma_resolves_arrow_left()
    ensures
        key_of_name("ArrowLeft"@) == Some(Key::ArrowLeft),
        is_ascii_chars("ArrowLeft"@),
        key_of_name(lowercase("ArrowLeft"@)) == Some(Key::ArrowLeft),
        forall|i: int| 0 <= i < "ArrowLeft"@.len() ==> "ArrowLeft"@[i] != '+',
        !bracketed("ArrowLeft"@),
{
    reveal_strlit("ArrowLeft");
    assert(is_ascii_chars("ArrowLeft"@));
    assert(lowercase("ArrowLeft"@) =~= seq!['a', 'r', 'r', 'o', 'w', 'l', 'e', 'f', 't']);
    assert(is_ascii_chars(seq!['a', 'r', 'r', 'o', 'w', 'l', 'e', 'f', 't']));
    assert(lowercase(seq!['a', 'r', 'r', 'o', 'w', 'l', 'e', 'f', 't']) =~= seq!['a', 'r', 'r', 'o', 'w', 'l', 'e', 'f', 't']);
    assert(seq!['a', 'r', 'r', 'o', 'w', 'l', 'e', 'f', 't'][5] != seq!['a', 'r', 'r', 'o', 'w', 'd', 'o', 'w', 'n'][5]);
    lemma_lookup_parts(seq!['a', 'r', 'r', 'o', 'w', 'l', 'e', 'f', 't']);
    lemma_part0(seq!['a', 'r', 'r', 'o', 'w', 'l', 'e', 'f', 't']);
}

proof fn lemma_resolves_arrow_right()
    ensures
        key_of_name("ArrowRight"@) == Some(Key::ArrowRight),
        is_ascii_chars("ArrowRight"@),
        key_of_name(lowercase("ArrowRight"@)) == Some(Key::ArrowRight),
        forall|i: int| 0 <= i < "ArrowRight"@.len() ==> "ArrowRight"@[i] != '+',
        !bracketed("ArrowRight"@),
{
    reveal_strlit("ArrowRight");
    assert(is_ascii_chars("ArrowRight"@));
    assert(lowercase("ArrowRight"@) =~= seq!['a', 'r', 'r', 'o', 'w', 'r', 'i', 'g', 'h', 't']);
    assert(is_ascii_chars(seq!['a', 'r', 'r', 'o', 'w', 'r', 'i', 'g', 'h', 't']));
    assert(lowercase(seq!['a', 'r', 'r', 'o', 'w', 'r', 'i', 'g', 'h', 't']) =~= seq!['a', 'r', 'r', 'o', 'w', 'r', 'i', 'g', 'h', 't']);
    lemma_lookup_parts(seq!['a', 'r', 'r', 'o', 'w', 'r', 'i', 'g', 'h', 't']);
    lemma_part0(seq!['a', 'r', 'r', 'o', 'w', 'r', 'i', 'g', 'h', 't']);
}

proof fn lemma_resolves_arrow_up()
    ensures
        key_of_name("ArrowUp"@) == Some(Key::ArrowUp),
        is_ascii_chars("ArrowUp"@),
        key_of_name(lowercase("ArrowUp"@)) == Some(Key::ArrowUp),
        forall|i: int| 0 <= i < "ArrowUp"@.len() ==> "ArrowUp"@[i] != '+',
        !bracketed("ArrowUp"@),
{
    reveal_strlit("ArrowUp");
    assert(is_ascii_chars("ArrowUp"@));
    assert(lowercase("ArrowUp"@) =~= seq!['a', 'r', 'r', 'o', 'w', 'u', 'p']);
    assert(is_ascii_chars(seq!['a', 'r', 'r', 'o', 'w', 'u', 'p']));
    assert(lowercase(seq!['a', 'r', 'r', 'o', 'w', 'u', 'p']) =~= seq!['a', 'r', 'r', 'o', 'w', 'u', 'p']);
    lemma_lookup_parts(seq!['a', 'r', 'r', 'o', 'w', 'u', 'p']);
    lemma_part0(seq!['a', 'r', 'r', 'o', 'w', 'u', 'p']);
}

proof fn lemma_resolves_arrow_down()
    ensures
        key_of_name("ArrowDown"@) == Some(Key::ArrowDown),
        is_ascii_chars("ArrowDown"@),
        key_of_name(lowercase("ArrowDown"@)) == Some(Key::ArrowDown),
        forall|i: int| 0 <= i < "ArrowDown"@.len() ==> "ArrowDown"@[i] != '+',
        !bracketed("ArrowDown"@),
{
    reveal_strlit("ArrowDown");
    assert(is_ascii_chars("ArrowDown"@));
    assert(lowercase("ArrowDown"@) =~= seq!['a', 'r', 'r', 'o', 'w', 'd', 'o', 'w', 'n']);
    assert(is_ascii_chars(seq!['a', 'r', 'r', 'o', 'w', 'd', 'o', 'w', 'n']));
    assert(lowercase(seq!['a', 'r', 'r', 'o', 'w', 'd', 'o', 'w', 'n']) =~= seq!['a', 'r', 'r', 'o', 'w', 'd', 'o', 'w', 'n']);
    assert(seq!['a', 'r', 'r', 'o', 'w', 'd', 'o', 'w', 'n'][5] != seq!['a', 'r', 'r', 'o', 'w', 'l', 'e', 'f', 't'][5]);
    lemma_lookup_parts(seq!['a', 'r', 'r', 'o', 'w', 'd', 'o', 'w', 'n']);
    lemma_part0(seq!['a', 'r', 'r', 'o', 'w', 'd', 'o', 'w', 'n']);
}

proof fn lemma_resolves_enter()
    ensures
        key_of_name("Enter"@) == Some(Key::Enter),
        is_ascii_chars("Enter"@),
        key_of_name(lowercase("Enter"@)) == Some(Key::Enter),
        forall|i: int| 0 <= i < "Enter"@.len() ==> "Enter"@[i] != '+',
        !bracketed("Enter"@),
{
    reveal_strlit("Enter");
    assert(is_ascii_chars("Enter"@));
    assert(lowercase("Enter"@) =~= seq!['e', 'n', 't', 'e', 'r']);
    assert(is_ascii_chars(seq!['e', 'n', 't', 'e', 'r']));
    assert(lowercase(seq!['e', 'n', 't', 'e', 'r']) =~= seq!['e', 'n', 't', 'e', 'r']);
    assert(seq!['e', 'n', 't', 'e', 'r'][0] != seq!['r', 'i', 'g', 'h', 't'][0]);
    assert(seq!['e', 'n', 't', 'e', 'r'][0] != seq!['s', 'p', 'a', 'c', 'e'][0]);
    lemma_lookup_parts(seq!['e', 'n', 't', 'e', 'r']);
    lemma_part0(seq!['e', 'n', 't', 'e', 'r']);
    lemma_part1(seq!['e', 'n', 't', 'e', 'r']);
}

proof fn lemma_resolves_escape()
    ensures
        key_of_name("Escape"@) == Some(Key::Escape),
        is_ascii_chars("Escape"@),
        key_of_name(lowercase("Escape"@)) == Some(Key::Escape),
        forall|i: int| 0 <= i < "Escape"@.len() ==> "Escape"@[i] != '+',
        !bracketed("Escape"@),
{
    reveal_strlit("Escape");
    assert(is_ascii_chars("Escape"@));
    assert(lowercase("Escape"@) =~= seq!['e', 's', 'c', 'a', 'p', 'e']);
    assert(is_ascii_chars(seq!['e', 's', 'c', 'a', 'p', 'e']));
    assert(lowercase(seq!['e', 's', 'c', 'a', 'p', 'e']) =~= seq!['e', 's', 'c', 'a', 'p', 'e']);
    lemma_lookup_parts(seq!['e', 's', 'c', 'a', 'p', 'e']);
    lemma_part0(seq!['e', 's', 'c', 'a', 'p', 'e']);
    lemma_part1(seq!['e', 's', 'c', 'a', 'p', 'e']);
}

proof fn lemma_resolves_space()
    ensures
        key_of_name("Space"@) == Some(Key::Space),
        is_ascii_chars("Space"@),
        key_of_name(lowercase("Space"@)) == Some(Key::Space),
        forall|i: int| 0 <= i < "Space"@.len() ==> "Space"@[i] != '+',
        !bracketed("Space"@),
{
    reveal_strlit("Space");
    assert(is_ascii_chars("Space"@));
    assert(lowercase("Space"@) =~= seq!['s', 'p', 'a', 'c', 'e']);
    assert(is_ascii_chars(seq!['s', 'p', 'a', 'c', 'e']));
    assert(lowercase(seq!['s', 'p', 'a', 'c', 'e']) =~= seq!['s', 'p', 'a', 'c', 'e']);
    assert(seq!['s', 'p', 'a', 'c', 'e'][0] != seq!['r', 'i', 'g', 'h', 't'][0]);
    assert(seq!['s', 'p', 'a', 'c', 'e'][0] != seq!['e', 'n', 't', 'e', 'r'][0]);
    lemma_lookup_parts(seq!['s', 'p', 'a', 'c', 'e']);
    lemma_part0(seq!['s', 'p', 'a', 'c', 'e']);
    lemma_part1(seq!['s', 'p', 'a', 'c', 'e']);
}

proof fn lemma_resolves_backspace()
    ensures
        key_of_name("Backspace"@) == Some(Key::Backspace),
        is_ascii_chars("Backspace"@),
        key_of_name(lowercase("Backspace"@)) == Some(Key::Backspace),
        forall|i: int| 0 <= i < "Backspace"@.len() ==> "Backspace"@[i] != '+',
        !bracketed("Backspace"@),
{
    reveal_strlit("Backspace");
    assert(is_ascii_chars("Backspace"@));
    assert(lowercase("Backspace"@) =~= seq!['b', 'a', 'c', 'k', 's', 'p', 'a', 'c', 'e']);
    assert(is_ascii_chars(seq!['b', 'a', 'c', 'k', 's', 'p', 'a', 'c', 'e']));
    assert(lowercase(seq!['b', 'a', 'c', 'k', 's', 'p', 'a', 'c', 'e']) =~= seq!['b', 'a', 'c', 'k', 's', 'p', 'a', 'c', 'e']);
    assert(seq!['b', 'a', 'c', 'k', 's', 'p', 'a', 'c', 'e'][0] != seq!['a', 'r', 'r', 'o', 'w', 'l', 'e', 'f', 't'][0]);
    assert(seq!['b', 'a', 'c', 'k', 's', 'p', 'a', 'c', 'e'][0] != seq!['a', 'r', 'r', 'o', 'w', 'd', 'o', 'w', 'n'][0]);
    lemma_lookup_parts(seq!['b', 'a', 'c', 'k', 's', 'p', 'a', 'c', 'e']);
    lemma_part0(seq!['b', 'a', 'c', 'k', 's', 'p', 'a', 'c', 'e']);
    lemma_part1(seq!['b', 'a', 'c', 'k', 's', 'p', 'a', 'c', 'e']);
}

proof fn lemma_resolves_tab()
    ensures
        key_of_name("Tab"@) == Some(Key::Tab),
        is_ascii_chars("Tab"@),
        key_of_name(lowercase("Tab"@)) == Some(Key::Tab),
        forall|i: int| 0 <= i < "Tab"@.len() ==> "Tab"@[i] != '+',
        !bracketed("Tab"@),
{
    reveal_strlit("Tab");
    assert(is_ascii_chars("Tab"@));
    assert(lowercase("Tab"@) =~= seq!['t', 'a', 'b']);
    assert(is_ascii_chars(seq!['t', 'a', 'b']));
    assert(lowercase(seq!['t', 'a', 'b']) =~= seq!['t', 'a', 'b']);
    assert(seq!['t', 'a', 'b'][0] != seq!['e', 's', 'c'][0]);
    lemma_lookup_parts(seq!['t', 'a', 'b']);
    lemma_part0(seq!['t', 'a', 'b']);
    lemma_part1(seq!['t', 'a', 'b']);
}

proof fn lemma_resolves_home()
    ensures
        key_of_name("Home"@) == Some(Key::Home),
        is_ascii_chars("Home"@),
        key_of_name(lowercase("Home"@)) == Some(Key::Home),
        forall|i: int| 0 <= i < "Home"@.len() ==> "Home"@[i] != '+',
        !bracketed("Home"@),
{
    reveal_strlit("Home");
    assert(is_ascii_chars("Home"@));
    assert(lowercase("Home"@) =~= seq!['h', 'o', 'm', 'e']);
    assert(is_ascii_chars(seq!['h', 'o', 'm', 'e']));
    assert(lowercase(seq!['h', 'o', 'm', 'e']) =~= seq!['h', 'o', 'm', 'e']);
    assert(seq!['h', 'o', 'm', 'e'][0] != seq!['l', 'e', 'f', 't'][0]);
    assert(seq!['h', 'o', 'm', 'e'][0] != seq!['d', 'o', 'w', 'n'][0]);
    lemma_lookup_parts(seq!['h', 'o', 'm', 'e']);
    lemma_part0(seq!['h', 'o', 'm', 'e']);
    lemma_part1(seq!['h', 'o', 'm', 'e']);
}

proof fn lemma_resolves_end()
    ensures
        key_of_name("End"@) == Some(Key::End),
        is_ascii_chars("End"@),
        key_of_name(lowercase("End"@)) == Some(Key::End),
        forall|i: int| 0 <= i < "End"@.len() ==> "End"@[i] != '+',
        !bracketed("End"@),
{
    reveal_strlit("End");
    assert(is_ascii_chars("End"@));
    assert(lowercase("End"@) =~= seq!['e', 'n', 'd']);
    assert(is_ascii_chars(seq!['e', 'n', 'd']));
    assert(lowercase(seq!['e', 'n', 'd']) =~= seq!['e', 'n', 'd']);
    assert(seq!['e', 'n', 'd'][1] != seq!['e', 's', 'c'][1]);
    assert(seq!['e', 'n', 'd'][0] != seq!['t', 'a', 'b'][0]);
    lemma_lookup_parts(seq!['e', 'n', 'd']);
    lemma_part0(seq!['e', 'n', 'd']);
    lemma_part1(seq!['e', 'n', 'd']);
    lemma_part2(seq!['e', 'n', 'd']);
}

proof fn lemma_resolves_page_up()
    ensures
        key_of_name("PageUp"@) == Some(Key::PageUp),
        is_ascii_chars("PageUp"@),
        key_of_name(lowercase("PageUp"@)) == Some(Key::PageUp),
        forall|i: int| 0 <= i < "PageUp"@.len() ==> "PageUp"@[i] != '+',
        !bracketed("PageUp"@),
{
    reveal_strlit("PageUp");
    assert(is_ascii_chars("PageUp"@));
    assert(lowercase("PageUp"@) =~= seq!['p', 'a', 'g', 'e', 'u', 'p']);
    assert(is_ascii_chars(seq!['p', 'a', 'g', 'e', 'u', 'p']));
    assert(lowercase(seq!['p', 'a', 'g', 'e', 'u', 'p']) =~= seq!['p', 'a', 'g', 'e', 'u', 'p']);
    assert(seq!['p', 'a', 'g', 'e', 'u', 'p'][0] != seq!['e', 's', 'c', 'a', 'p', 'e'][0]);
    assert(seq!['p', 'a', 'g', 'e', 'u', 'p'][0] != seq!['e', 'q', 'u', 'a', 'l', 's'][0]);
    lemma_lookup_parts(seq!['p', 'a', 'g', 'e', 'u', 'p']);
    lemma_part0(seq!['p', 'a', 'g', 'e', 'u', 'p']);
    lemma_part1(seq!['p', 'a', 'g', 'e', 'u', 'p']);
    lemma_part2(seq!['p', 'a', 'g', 'e', 'u', 'p']);
}

proof fn lemma_resolves_page_down()
    ensures
        key_of_name("PageDown"@) == Some(Key::PageDown),
        is_ascii_chars("PageDown"@),
        key_of_name(lowercase("PageDown"@)) == Some(Key::PageDown),
        forall|i: int| 0 <= i < "PageDown"@.len() ==> "PageDown"@[i] != '+',
        !bracketed("PageDown"@),
{
    reveal_strlit("PageDown");
    assert(is_ascii_chars("PageDown"@));
    assert(lowercase("PageDown"@) =~= seq!['p', 'a', 'g', 'e', 'd', 'o', 'w', 'n']);
    assert(is_ascii_chars(seq!['p', 'a', 'g', 'e', 'd', 'o', 'w', 'n']));
    assert(lowercase(seq!['p', 'a', 'g', 'e', 'd', 'o', 'w', 'n']) =~= seq!['p', 'a', 'g', 'e', 'd', 'o', 'w', 'n']);
    lemma_lookup_parts(seq!['p', 'a', 'g', 'e', 'd', 'o', 'w', 'n']);
    lemma_part0(seq!['p', 'a', 'g', 'e', 'd', 'o', 'w', 'n']);
    lemma_part1(seq!['p', 'a', 'g', 'e', 'd', 'o', 'w', 'n']);
    lemma_part2(seq!['p', 'a', 'g', 'e', 'd', 'o', 'w', 'n']);
}

proof fn lemma_resolves_plus()
    ensures
        key_of_name("Plus"@) == Some(Key::Plus),
        is_ascii_chars("Plus"@),
        key_of_name(lowercase("Plus"@)) == Some(Key::Plus),
        forall|i: int| 0 <= i < "Plus"@.len() ==> "Plus"@[i] != '+',
        !bracketed("Plus"@),
{
    reveal_strlit("Plus");
    assert(is_ascii_chars("Plus"@));
    assert(lowercase("Plus"@) =~= seq!['p', 'l', 'u', 's']);
    assert(is_ascii_chars(seq!['p', 'l', 'u', 's']));
    assert(lowercase(seq!['p', 'l', 'u', 's']) =~= seq!['p', 'l', 'u', 's']);
    assert(seq!['p', 'l', 'u', 's'][0] != seq!['l', 'e', 'f', 't'][0]);
    assert(seq!['p', 'l', 'u', 's'][0] != seq!['d', 'o', 'w', 'n'][0]);
    assert(seq!['p', 'l', 'u', 's'][0] != seq!['h', 'o', 'm', 'e'][0]);
    assert(seq!['p', 'l', 'u', 's'][1] != seq!['p', 'g', 'u', 'p'][1]);
    assert(seq!['p', 'l', 'u', 's'][1] != seq!['p', 'g', 'd', 'n'][1]);
    lemma_lookup_parts(seq!['p', 'l', 'u', 's']);
    lemma_part0(seq!['p', 'l', 'u', 's']);
    lemma_part1(seq!['p', 'l', 'u', 's']);
    lemma_part2(seq!['p', 'l', 'u', 's']);
}

proof fn lemma_resolves_equals()
    ensures
        key_of_name("Equals"@) == Some(Key::Equals),
        is_ascii_chars("Equals"@),
        key_of_name(lowercase("Equals"@)) == Some(Key::Equals),
        forall|i: int| 0 <= i < "Equals"@.len() ==> "Equals"@[i] != '+',
        !bracketed("Equals"@),
{
    reveal_strlit("Equals");
    assert(is_ascii_chars("Equals"@));
    assert(lowercase("Equals"@) =~= seq!['e', 'q', 'u', 'a', 'l', 's']);
    assert(is_ascii_chars(seq!['e', 'q', 'u', 'a', 'l', 's']));
    assert(lowercase(seq!['e', 'q', 'u', 'a', 'l', 's']) =~= seq!['e', 'q', 'u', 'a', 'l', 's']);
    assert(seq!['e', 'q', 'u', 'a', 'l', 's'][1] != seq!['e', 's', 'c', 'a', 'p', 'e'][1]);
    assert(seq!['e', 'q', 'u', 'a', 'l', 's'][0] != seq!['p', 'a', 'g', 'e', 'u', 'p'][0]);
    lemma_lookup_parts(seq!['e', 'q', 'u', 'a', 'l', 's']);
    lemma_part0(seq!['e', 'q', 'u', 'a', 'l', 's']);
    lemma_part1(seq!['e', 'q', 'u', 'a', 'l', 's']);
    lemma_part2(seq!['e', 'q', 'u', 'a', 'l', 's']);
}

proof fn lemma_resolves_minus()
    ensures
        key_of_name("Minus"@) == Some(Key::Minus),
        is_ascii_chars("Minus"@),
        key_of_name(lowercase("Minus"@)) == Some(Key::Minus),
        forall|i: int| 0 <= i < "Minus"@.len() ==> "Minus"@[i] != '+',
        !bracketed("Minus"@),
{
    reveal_strlit("Minus");
    assert(is_ascii_chars("Minus"@));
    assert(lowercase("Minus"@) =~= seq!['m', 'i', 'n', 'u', 's']);
    assert(is_ascii_chars(seq!['m', 'i', 'n', 'u', 's']));
    assert(lowercase(seq!['m', 'i', 'n', 'u', 's']) =~= seq!['m', 'i', 'n', 'u', 's']);
    assert(seq!['m', 'i', 'n', 'u', 's'][0] != seq!['r', 'i', 'g', 'h', 't'][0]);
    assert(seq!['m', 'i', 'n', 'u', 's'][0] != seq!['e', 'n', 't', 'e', 'r'][0]);
    assert(seq!['m', 'i', 'n', 'u', 's'][0] != seq!['s', 'p', 'a', 'c', 'e'][0]);
    lemma_lookup_parts(seq!['m', 'i', 'n', 'u', 's']);
    lemma_part0(seq!['m', 'i', 'n', 'u', 's']);
    lemma_part1(seq!['m', 'i', 'n', 'u', 's']);
    lemma_part2(seq!['m', 'i', 'n', 'u', 's']);
}

proof fn lemma_resolves_f1()
    ensures
        key_of_name("F1"@) == Some(Key::F1),
        is_ascii_chars("F1"@),
        key_of_name(lowercase("F1"@)) == Some(Key::F1),
        forall|i: int| 0 <= i < "F1"@.len() ==> "F1"@[i] != '+',
        !bracketed("F1"@),
{
    reveal_strlit("F1");
    assert(is_ascii_chars("F1"@));
    assert(lowercase("F1"@) =~= seq!['f', '1']);
    assert(is_ascii_chars(seq!['f', '1']));
    assert(lowercase(seq!['f', '1']) =~= seq!['f', '1']);
    assert(seq!['f', '1'][0] != seq!['u', 'p'][0]);
    assert(seq!['f', '1'][0] != seq!['b', 's'][0]);
    assert(seq!['f', '1'][1] != seq!['f', '2'][1]);
    assert(seq!['f', '1'][1] != seq!['f', '3'][1]);
    assert(seq!['f', '1'][1] != seq!['f', '4'][1]);
    assert(seq!['f', '1'][1] != seq!['f', '5'][1]);
    assert(seq!['f', '1'][1] != seq!['f', '6'][1]);
    assert(seq!['f', '1'][1] != seq!['f', '7'][1]);
    assert(seq!['f', '1'][1] != seq!['f', '8'][1]);
    lemma_lookup_parts(seq!['f', '1']);
    lemma_part0(seq!['f', '1']);
    lemma_part1(seq!['f', '1']);
    lemma_part2(seq!['f', '1']);
    lemma_part3(seq!['f', '1']);
}

proof fn lemma_resolves_f2()
    ensures
        key_of_name("F2"@) == Some(Key::F2),
        is_ascii_chars("F2"@),
        key_of_name(lowercase("F2"@)) == Some(Key::F2),
        forall|i: int| 0 <= i < "F2"@.len() ==> "F2"@[i] != '+',
        !bracketed("F2"@),
{
    reveal_strlit("F2");
    assert(is_ascii_chars("F2"@));
    assert(lowercase("F2"@) =~= seq!['f', '2']);
    assert(is_ascii_chars(seq!['f', '2']));
    assert(lowercase(seq!['f', '2']) =~= seq!['f', '2']);
    assert(seq!['f', '2'][0] != seq!['u', 'p'][0]);
    assert(seq!['f', '2'][0] != seq!['b', 's'][0]);
    assert(seq!['f', '2'][1] != seq!['f', '1'][1]);
    assert(seq!['f', '2'][1] != seq!['f', '3'][1]);
    assert(seq!['f', '2'][1] != seq!['f', '4'][1]);
    assert(seq!['f', '2'][1] != seq!['f', '5'][1]);
    assert(seq!['f', '2'][1] != seq!['f', '6'][1]);
    assert(seq!['f', '2'][1] != seq!['f', '7'][1]);
    assert(seq!['f', '2'][1] != seq!['f', '8'][1]);
    lemma_lookup_parts(seq!['f', '2']);
    lemma_part0(seq!['f', '2']);
    lemma_part1(seq!['f', '2']);
    lemma_part2(seq!['f', '2']);
    lemma_part3(seq!['f', '2']);
}

proof fn lemma_resolves_f3()
    ensures
        key_of_name("F3"@) == Some(Key::F3),
        is_ascii_chars("F3"@),
        key_of_name(lowercase("F3"@)) == Some(Key::F3),
        forall|i: int| 0 <= i < "F3"@.len() ==> "F3"@[i] != '+',
        !bracketed("F3"@),
{
    reveal_strlit("F3");
    assert(is_ascii_chars("F3"@));
    assert(lowercase("F3"@) =~= seq!['f', '3']);
    assert(is_ascii_chars(seq!['f', '3']));
    assert(lowercase(seq!['f', '3']) =~= seq!['f', '3']);
    assert(seq!['f', '3'][0] != seq!['u', 'p'][0]);
    assert(seq!['f', '3'][0] != seq!['b', 's'][0]);
    assert(seq!['f', '3'][1] != seq!['f', '1'][1]);
    assert(seq!['f', '3'][1] != seq!['f', '2'][1]);
    assert(seq!['f', '3'][1] != seq!['f', '4'][1]);
    assert(seq!['f', '3'][1] != seq!['f', '5'][1]);
    assert(seq!['f', '3'][1] != seq!['f', '6'][1]);
    assert(seq!['f', '3'][1] != seq!['f', '7'][1]);
    assert(seq!['f', '3'][1] != seq!['f', '8'][1]);
    lemma_lookup_parts(seq!['f', '3']);
    lemma_part0(seq!['f', '3']);
    lemma_part1(seq!['f', '3']);
    lemma_part2(seq!['f', '3']);
    lemma_part3(seq!['f', '3']);
}

proof fn lemma_resolves_f4()
    ensures
        key_of_name("F4"@) == Some(Key::F4),
        is_ascii_chars("F4"@),
        key_of_name(lowercase("F4"@)) == Some(Key::F4),
        forall|i: int| 0 <= i < "F4"@.len() ==> "F4"@[i] != '+',
        !bracketed("F4"@),
{
    reveal_strlit("F4");
    assert(is_ascii_chars("F4"@));
    assert(lowercase("F4"@) =~= seq!['f', '4']);
    assert(is_ascii_chars(seq!['f', '4']));
    assert(lowercase(seq!['f', '4']) =~= seq!['f', '4']);
    assert(seq!['f', '4'][0] != seq!['u', 'p'][0]);
    assert(seq!['f', '4'][0] != seq!['b', 's'][0]);
    assert(seq!['f', '4'][1] != seq!['f', '1'][1]);
    assert(seq!['f', '4'][1] != seq!['f', '2'][1]);
    assert(seq!['f', '4'][1] != seq!['f', '3'][1]);
    assert(seq!['f', '4'][1] != seq!['f', '5'][1]);
    assert(seq!['f', '4'][1] != seq!['f', '6'][1]);
    assert(seq!['f', '4'][1] != seq!['f', '7'][1]);
    assert(seq!['f', '4'][1] != seq!['f', '8'][1]);
    lemma_lookup_parts(seq!['f', '4']);
    lemma_part0(seq!['f', '4']);
    lemma_part1(seq!['f', '4']);
    lemma_part2(seq!['f', '4']);
    lemma_part3(seq!['f', '4']);
}

proof fn lemma_resolves_f5()
    ensures
        key_of_name("F5"@) == Some(Key::F5),
        is_ascii_chars("F5"@),
        key_of_name(lowercase("F5"@)) == Some(Key::F5),
        forall|i: int| 0 <= i < "F5"@.len() ==> "F5"@[i] != '+',
        !bracketed("F5"@),
{
    reveal_strlit("F5");
    assert(is_ascii_chars("F5"@));
    assert(lowercase("F5"@) =~= seq!['f', '5']);
    assert(is_ascii_chars(seq!['f', '5']));
    assert(lowercase(seq!['f', '5']) =~= seq!['f', '5']);
    assert(seq!['f', '5'][0] != seq!['u', 'p'][0]);
    assert(seq!['f', '5'][0] != seq!['b', 's'][0]);
    assert(seq!['f', '5'][1] != seq!['f', '1'][1]);
    assert(seq!['f', '5'][1] != seq!['f', '2'][1]);
    assert(seq!['f', '5'][1] != seq!['f', '3'][1]);
    assert(seq!['f', '5'][1] != seq!['f', '4'][1]);
    assert(seq!['f', '5'][1] != seq!['f', '6'][1]);
    assert(seq!['f', '5'][1] != seq!['f', '7'][1]);
    assert(seq!['f', '5'][1] != seq!['f', '8'][1]);
    lemma_lookup_parts(seq!['f', '5']);
    lemma_part0(seq!['f', '5']);
    lemma_part1(seq!['f', '5']);
    lemma_part2(seq!['f', '5']);
    lemma_part3(seq!['f', '5']);
}

proof fn lemma_resolves_f6()
    ensures
        key_of_name("F6"@) == Some(Key::F6),
        is_ascii_chars("F6"@),
        key_of_name(lowercase("F6"@)) == Some(Key::F6),
        forall|i: int| 0 <= i < "F6"@.len() ==> "F6"@[i] != '+',
        !bracketed("F6"@),
{
    reveal_strlit("F6");
    assert(is_ascii_chars("F6"@));
    assert(lowercase("F6"@) =~= seq!['f', '6']);
    assert(is_ascii_chars(seq!['f', '6']));
    assert(lowercase(seq!['f', '6']) =~= seq!['f', '6']);
    assert(seq!['f', '6'][0] != seq!['u', 'p'][0]);
    assert(seq!['f', '6'][0] != seq!['b', 's'][0]);
    assert(seq!['f', '6'][1] != seq!['f', '1'][1]);
    assert(seq!['f', '6'][1] != seq!['f', '2'][1]);
    assert(seq!['f', '6'][1] != seq!['f', '3'][1]);
    assert(seq!['f', '6'][1] != seq!['f', '4'][1]);
    assert(seq!['f', '6'][1] != seq!['f', '5'][1]);
    assert(seq!['f', '6'][1] != seq!['f', '7'][1]);
    assert(seq!['f', '6'][1] != seq!['f', '8'][1]);
    lemma_lookup_parts(seq!['f', '6']);
    lemma_part0(seq!['f', '6']);
    lemma_part1(seq!['f', '6']);
    lemma_part2(seq!['f', '6']);
    lemma_part3(seq!['f', '6']);
}

proof fn lemma_resolves_f7()
    ensures
        key_of_name("F7"@) == Some(Key::F7),
        is_ascii_chars("F7"@),
        key_of_name(lowercase("F7"@)) == Some(Key::F7),
        forall|i: int| 0 <= i < "F7"@.len() ==> "F7"@[i] != '+',
        !bracketed("F7"@),
{
    reveal_strlit("F7");
    assert(is_ascii_chars("F7"@));
    assert(lowercase("F7"@) =~= seq!['f', '7']);
    assert(is_ascii_chars(seq!['f', '7']));
    assert(lowercase(seq!['f', '7']) =~= seq!['f', '7']);
    assert(seq!['f', '7'][0] != seq!['u', 'p'][0]);
    assert(seq!['f', '7'][0] != seq!['b', 's'][0]);
    assert(seq!['f', '7'][1] != seq!['f', '1'][1]);
    assert(seq!['f', '7'][1] != seq!['f', '2'][1]);
    assert(seq!['f', '7'][1] != seq!['f', '3'][1]);
    assert(seq!['f', '7'][1] != seq!['f', '4'][1]);
    assert(seq!['f', '7'][1] != seq!['f', '5'][1]);
    assert(seq!['f', '7'][1] != seq!['f', '6'][1]);
    assert(seq!['f', '7'][1] != seq!['f', '8'][1]);
    lemma_lookup_parts(seq!['f', '7']);
    lemma_part0(seq!['f', '7']);
    lemma_part1(seq!['f', '7']);
    lemma_part2(seq!['f', '7']);
    lemma_part3(seq!['f', '7']);
}

proof fn lemma_resolves_f8()
    ensures
        key_of_name("F8"@) == Some(Key::F8),
        is_ascii_chars("F8"@),
        key_of_name(lowercase("F8"@)) == Some(Key::F8),
        forall|i: int| 0 <= i < "F8"@.len() ==> "F8"@[i] != '+',
        !bracketed("F8"@),
{
    reveal_strlit("F8");
    assert(is_ascii_chars("F8"@));
    assert(lowercase("F8"@) =~= seq!['f', '8']);
    assert(is_ascii_chars(seq!['f', '8']));
    assert(lowercase(seq!['f', '8']) =~= seq!['f', '8']);
    assert(seq!['f', '8'][0] != seq!['u', 'p'][0]);
    assert(seq!['f', '8'][0] != seq!['b', 's'][0]);
    assert(seq!['f', '8'][1] != seq!['f', '1'][1]);
    assert(seq!['f', '8'][1] != seq!['f', '2'][1]);
    assert(seq!['f', '8'][1] != seq!['f', '3'][1]);
    assert(seq!['f', '8'][1] != seq!['f', '4'][1]);
    assert(seq!['f', '8'][1] != seq!['f', '5'][1]);
    assert(seq!['f', '8'][1] != seq!['f', '6'][1]);
    assert(seq!['f', '8'][1] != seq!['f', '7'][1]);
    lemma_lookup_parts(seq!['f', '8']);
    lemma_part0(seq!['f', '8']);
    lemma_part1(seq!['f', '8']);
    lemma_part2(seq!['f', '8']);
    lemma_part3(seq!['f', '8']);
}

proof fn lemma_resolves_f9()
    ensures
        key_of_name("F9"@) == Some(Key::F9),
        is_ascii_chars("F9"@),
        key_of_name(lowercase("F9"@)) == Some(Key::F9),
        forall|i: int| 0 <= i < "F9"@.len() ==> "F9"@[i] != '+',
        !bracketed("F9"@),
{
    reveal_strlit("F9");
    assert(is_ascii_chars("F9"@));
    assert(lowercase("F9"@) =~= seq!['f', '9']);
    assert(is_ascii_chars(seq!['f', '9']));
    assert(lowercase(seq!['f', '9']) =~= seq!['f', '9']);
    assert(seq!['f', '9'][0] != seq!['u', 'p'][0]);
    assert(seq!['f', '9'][0] != seq!['b', 's'][0]);
    assert(seq!['f', '9'][1] != seq!['f', '1'][1]);
    assert(seq!['f', '9'][1] != seq!['f', '2'][1]);
    assert(seq!['f', '9'][1] != seq!['f', '3'][1]);
    assert(seq!['f', '9'][1] != seq!['f', '4'][1]);
    assert(seq!['f', '9'][1] != seq!['f', '5'][1]);
    assert(seq!['f', '9'][1] != seq!['f', '6'][1]);
    assert(seq!['f', '9'][1] != seq!['f', '7'][1]);
    assert(seq!['f', '9'][1] != seq!['f', '8'][1]);
    lemma_lookup_parts(seq!['f', '9']);
    lemma_part0(seq!['f', '9']);
    lemma_part1(seq!['f', '9']);
    lemma_part2(seq!['f', '9']);
    lemma_part3(seq!['f', '9']);
    lemma_part4(seq!['f', '9']);
}

proof fn lemma_resolves_f10()
    ensures
        key_of_name("F10"@) == Some(Key::F10),
        is_ascii_chars("F10"@),
        key_of_name(lowercase("F10"@)) == Some(Key::F10),
        forall|i: int| 0 <= i < "F10"@.len() ==> "F10"@[i] != '+',
        !bracketed("F10"@),
{
    reveal_strlit("F10");
    assert(is_ascii_chars("F10"@));
    assert(lowercase("F10"@) =~= seq!['f', '1', '0']);
    assert(is_ascii_chars(seq!['f', '1', '0']));
    assert(lowercase(seq!['f', '1', '0']) =~= seq!['f', '1', '0']);
    assert(seq!['f', '1', '0'][0] != seq!['e', 's', 'c'][0]);
    assert(seq!['f', '1', '0'][0] != seq!['t', 'a', 'b'][0]);
    assert(seq!['f', '1', '0'][0] != seq!['e', 'n', 'd'][0]);
    assert(seq!['f', '1', '0'][2] != seq!['f', '1', '1'][2]);
    assert(seq!['f', '1', '0'][2] != seq!['f', '1', '2'][2]);
    lemma_lookup_parts(seq!['f', '1', '0']);
    lemma_part0(seq!['f', '1', '0']);
    lemma_part1(seq!['f', '1', '0']);
    lemma_part2(seq!['f', '1', '0']);
    lemma_part3(seq!['f', '1', '0']);
    lemma_part4(seq!['f', '1', '0']);
}

proof fn lemma_resolves_f11()
    ensures
        key_of_name("F11"@) == Some(Key::F11),
        is_ascii_chars("F11"@),
        key_of_name(lowercase("F11"@)) == Some(Key::F11),
        forall|i: int| 0 <= i < "F11"@.len() ==> "F11"@[i] != '+',
        !bracketed("F11"@),
{
    reveal_strlit("F11");
    assert(is_ascii_chars("F11"@));
    assert(lowercase("F11"@) =~= seq!['f', '1', '1']);
    assert(is_ascii_chars(seq!['f', '1', '1']));
    assert(lowercase(seq!['f', '1', '1']) =~= seq!['f', '1', '1']);
    assert(seq!['f', '1', '1'][0] != seq!['e', 's', 'c'][0]);
    assert(seq!['f', '1', '1'][0] != seq!['t', 'a', 'b'][0]);
    assert(seq!['f', '1', '1'][0] != seq!['e', 'n', 'd'][0]);
    assert(seq!['f', '1', '1'][2] != seq!['f', '1', '0'][2]);
    assert(seq!['f', '1', '1'][2] != seq!['f', '1', '2'][2]);
    lemma_lookup_parts(seq!['f', '1', '1']);
    lemma_part0(seq!['f', '1', '1']);
    lemma_part1(seq!['f', '1', '1']);
    lemma_part2(seq!['f', '1', '1']);
    lemma_part3(seq!['f', '1', '1']);
    lemma_part4(seq!['f', '1', '1']);
}

proof fn lemma_resolves_f12()
    ensures
        key_of_name("F12"@) == Some(Key::F12),
        is_ascii_chars("F12"@),
        key_of_name(lowercase("F12"@)) == Some(Key::F12),
        forall|i: int| 0 <= i < "F12"@.len() ==> "F12"@[i] != '+',
        !bracketed("F12"@),
{
    reveal_strlit("F12");
    assert(is_ascii_chars("F12"@));
    assert(lowercase("F12"@) =~= seq!['f', '1', '2']);
    assert(is_ascii_chars(seq!['f', '1', '2']));
    assert(lowercase(seq!['f', '1', '2']) =~= seq!['f', '1', '2']);
    assert(seq!['f', '1', '2'][0] != seq!['e', 's', 'c'][0]);
    assert(seq!['f', '1', '2'][0] != seq!['t', 'a', 'b'][0]);
    assert(seq!['f', '1', '2'][0] != seq!['e', 'n', 'd'][0]);
    assert(seq!['f', '1', '2'][2] != seq!['f', '1', '0'][2]);
    assert(seq!['f', '1', '2'][2] != seq!['f', '1', '1'][2]);
    lemma_lookup_parts(seq!['f', '1', '2']);
    lemma_part0(seq!['f', '1', '2']);
    lemma_part1(seq!['f', '1', '2']);
    lemma_part2(seq!['f', '1', '2']);
    lemma_part3(seq!['f', '1', '2']);
    lemma_part4(seq!['f', '1', '2']);
}

proof fn lemma_resolves_a()
    ensures
        key_of_name("A"@) == Some(Key::A),
        is_ascii_chars("A"@),
        key_of_name(lowercase("A"@)) == Some(Key::A),
        forall|i: int| 0 <= i < "A"@.len() ==> "A"@[i] != '+',
        !bracketed("A"@),
{
    reveal_strlit("A");
    assert(is_ascii_chars("A"@));
    assert(lowercase("A"@) =~= seq!['a']);
    assert(is_ascii_chars(seq!['a']));
    assert(lowercase(seq!['a']) =~= seq!['a']);
    assert(seq!['a'][0] != seq!['b'][0]);
    assert(seq!['a'][0] != seq!['c'][0]);
    assert(seq!['a'][0] != seq!['d'][0]);
    lemma_lookup_parts(seq!['a']);
    lemma_part0(seq!['a']);
    lemma_part1(seq!['a']);
    lemma_part2(seq!['a']);
    lemma_part3(seq!['a']);
    lemma_part4(seq!['a']);
}

proof fn lemma_resolves_b()
    ensures
        key_of_name("B"@) == Some(Key::B),
        is_ascii_chars("B"@),
        key_of_name(lowercase("B"@)) == Some(Key::B),
        forall|i: int| 0 <= i < "B"@.len() ==> "B"@[i] != '+',
        !bracketed("B"@),
{
    reveal_strlit("B");
    assert(is_ascii_chars("B"@));
    assert(lowercase("B"@) =~= seq!['b']);
    assert(is_ascii_chars(seq!['b']));
    assert(lowercase(seq!['b']) =~= seq!['b']);
    assert(seq!['b'][0] != seq!['a'][0]);
    assert(seq!['b'][0] != seq!['c'][0]);
    assert(seq!['b'][0] != seq!['d'][0]);
    lemma_lookup_parts(seq!['b']);
    lemma_part0(seq!['b']);
    lemma_part1(seq!['b']);
    lemma_part2(seq!['b']);
    lemma_part3(seq!['b']);
    lemma_part4(seq!['b']);
}

proof fn lemma_resolves_c()
    ensures
        key_of_name("C"@) == Some(Key::C),
        is_ascii_chars("C"@),
        key_of_name(lowercase("C"@)) == Some(Key::C),
        forall|i: int| 0 <= i < "C"@.len() ==> "C"@[i] != '+',
        !bracketed("C"@),
{
    reveal_strlit("C");
    assert(is_ascii_chars("C"@));
    assert(lowercase("C"@) =~= seq!['c']);
    assert(is_ascii_chars(seq!['c']));
    assert(lowercase(seq!['c']) =~= seq!['c']);
    assert(seq!['c'][0] != seq!['a'][0]);
    assert(seq!['c'][0] != seq!['b'][0]);
    assert(seq!['c'][0] != seq!['d'][0]);
    lemma_lookup_parts(seq!['c']);
    lemma_part0(seq!['c']);
    lemma_part1(seq!['c']);
    lemma_part2(seq!['c']);
    lemma_part3(seq!['c']);
    lemma_part4(seq!['c']);
}

proof fn lemma_resolves_d()
    ensures
        key_of_name("D"@) == Some(Key::D),
        is_ascii_chars("D"@),
        key_of_name(lowercase("D"@)) == Some(Key::D),
        forall|i: int| 0 <= i < "D"@.len() ==> "D"@[i] != '+',
        !bracketed("D"@),
{
    reveal_strlit("D");
    assert(is_ascii_chars("D"@));
    assert(lowercase("D"@) =~= seq!['d']);
    assert(is_ascii_chars(seq!['d']));
    assert(lowercase(seq!['d']) =~= seq!['d']);
    assert(seq!['d'][0] != seq!['a'][0]);
    assert(seq!['d'][0] != seq!['b'][0]);
    assert(seq!['d'][0] != seq!['c'][0]);
    lemma_lookup_parts(seq!['d']);
    lemma_part0(seq!['d']);
    lemma_part1(seq!['d']);
    lemma_part2(seq!['d']);
    lemma_part3(seq!['d']);
    lemma_part4(seq!['d']);
}

proof fn lemma_resolves_e()
    ensures
        key_of_name("E"@) == Some(Key::E),
        is_ascii_chars("E"@),
        key_of_name(lowercase("E"@)) == Some(Key::E),
        forall|i: int| 0 <= i < "E"@.len() ==> "E"@[i] != '+',
        !bracketed("E"@),
{
    reveal_strlit("E");
    assert(is_ascii_chars("E"@));
    assert(lowercase("E"@) =~= seq!['e']);
    assert(is_ascii_chars(seq!['e']));
    assert(lowercase(seq!['e']) =~= seq!['e']);
    assert(seq!['e'][0] != seq!['a'][0]);
    assert(seq!['e'][0] != seq!['b'][0]);
    assert(seq!['e'][0] != seq!['c'][0]);
    assert(seq!['e'][0] != seq!['d'][0]);
    assert(seq!['e'][0] != seq!['f'][0]);
    assert(seq!['e'][0] != seq!['g'][0]);
    assert(seq!['e'][0] != seq!['h'][0]);
    assert(seq!['e'][0] != seq!['i'][0]);
    assert(seq!['e'][0] != seq!['j'][0]);
    assert(seq!['e'][0] != seq!['k'][0]);
    assert(seq!['e'][0] != seq!['l'][0]);
    lemma_lookup_parts(seq!['e']);
    lemma_part0(seq!['e']);
    lemma_part1(seq!['e']);
    lemma_part2(seq!['e']);
    lemma_part3(seq!['e']);
    lemma_part4(seq!['e']);
    lemma_part5(seq!['e']);
}

proof fn lemma_resolves_f()
    ensures
        key_of_name("F"@) == Some(Key::F),
        is_ascii_chars("F"@),
        key_of_name(lowercase("F"@)) == Some(Key::F),
        forall|i: int| 0 <= i < "F"@.len() ==> "F"@[i] != '+',
        !bracketed("F"@),
{
    reveal_strlit("F");
    assert(is_ascii_chars("F"@));
    assert(lowercase("F"@) =~= seq!['f']);
    assert(is_ascii_chars(seq!['f']));
    assert(lowercase(seq!['f']) =~= seq!['f']);
    assert(seq!['f'][0] != seq!['a'][0]);
    assert(seq!['f'][0] != seq!['b'][0]);
    assert(seq!['f'][0] != seq!['c'][0]);
    assert(seq!['f'][0] != seq!['d'][0]);
    assert(seq!['f'][0] != seq!['e'][0]);
    assert(seq!['f'][0] != seq!['g'][0]);
    assert(seq!['f'][0] != seq!['h'][0]);
    assert(seq!['f'][0] != seq!['i'][0]);
    assert(seq!['f'][0] != seq!['j'][0]);
    assert(seq!['f'][0] != seq!['k'][0]);
    assert(seq!['f'][0] != seq!['l'][0]);
    lemma_lookup_parts(seq!['f']);
    lemma_part0(seq!['f']);
    lemma_part1(seq!['f']);
    lemma_part2(seq!['f']);
    lemma_part3(seq!['f']);
    lemma_part4(seq!['f']);
    lemma_part5(seq!['f']);
}

proof fn lemma_resolves_g()
    ensures
        key_of_name("G"@) == Some(Key::G),
        is_ascii_chars("G"@),
        key_of_name(lowercase("G"@)) == Some(Key::G),
        forall|i: int| 0 <= i < "G"@.len() ==> "G"@[i] != '+',
        !bracketed("G"@),
{
    reveal_strlit("G");
    assert(is_ascii_chars("G"@));
    assert(lowercase("G"@) =~= seq!['g']);
    assert(is_ascii_chars(seq!['g']));
    assert(lowercase(seq!['g']) =~= seq!['g']);
    assert(seq!['g'][0] != seq!['a'][0]);
    assert(seq!['g'][0] != seq!['b'][0]);
    assert(seq!['g'][0] != seq!['c'][0]);
    assert(seq!['g'][0] != seq!['d'][0]);
    assert(seq!['g'][0] != seq!['e'][0]);
    assert(seq!['g'][0] != seq!['f'][0]);
    assert(seq!['g'][0] != seq!['h'][0]);
    assert(seq!['g'][0] != seq!['i'][0]);
    assert(seq!['g'][0] != seq!['j'][0]);
    assert(seq!['g'][0] != seq!['k'][0]);
    assert(seq!['g'][0] != seq!['l'][0]);
    lemma_lookup_parts(seq!['g']);
    lemma_part0(seq!['g']);
    lemma_part1(seq!['g']);
    lemma_part2(seq!['g']);
    lemma_part3(seq!['g']);
    lemma_part4(seq!['g']);
    lemma_part5(seq!['g']);
}

proof fn lemma_resolves_h()
    ensures
        key_of_name("H"@) == Some(Key::H),
        is_ascii_chars("H"@),
        key_of_name(lowercase("H"@)) == Some(Key::H),
        forall|i: int| 0 <= i < "H"@.len() ==> "H"@[i] != '+',
        !bracketed("H"@),
{
    reveal_strlit("H");
    assert(is_ascii_chars("H"@));
    assert(lowercase("H"@) =~= seq!['h']);
    assert(is_ascii_chars(seq!['h']));
    assert(lowercase(seq!['h']) =~= seq!['h']);
    assert(seq!['h'][0] != seq!['a'][0]);
    assert(seq!['h'][0] != seq!['b'][0]);
    assert(seq!['h'][0] != seq!['c'][0]);
    assert(seq!['h'][0] != seq!['d'][0]);
    assert(seq!['h'][0] != seq!['e'][0]);
    assert(seq!['h'][0] != seq!['f'][0]);
    assert(seq!['h'][0] != seq!['g'][0]);
    assert(seq!['h'][0] != seq!['i'][0]);
    assert(seq!['h'][0] != seq!['j'][0]);
    assert(seq!['h'][0] != seq!['k'][0]);
    assert(seq!['h'][0] != seq!['l'][0]);
    lemma_lookup_parts(seq!['h']);
    lemma_part0(seq!['h']);
    lemma_part1(seq!['h']);
    lemma_part2(seq!['h']);
    lemma_part3(seq!['h']);
    lemma_part4(seq!['h']);
    lemma_part5(seq!['h']);
}

proof fn lemma_resolves_i()
    ensures
        key_of_name("I"@) == Some(Key::I),
        is_ascii_chars("I"@),
        key_of_name(lowercase("I"@)) == Some(Key::I),
        forall|i: int| 0 <= i < "I"@.len() ==> "I"@[i] != '+',
        !bracketed("I"@),
{
    reveal_strlit("I");
    assert(is_ascii_chars("I"@));
    assert(lowercase("I"@) =~= seq!['i']);
    assert(is_ascii_chars(seq!['i']));
    assert(lowercase(seq!['i']) =~= seq!['i']);
    assert(seq!['i'][0] != seq!['a'][0]);
    assert(seq!['i'][0] != seq!['b'][0]);
    assert(seq!['i'][0] != seq!['c'][0]);
    assert(seq!['i'][0] != seq!['d'][0]);
    assert(seq!['i'][0] != seq!['e'][0]);
    assert(seq!['i'][0] != seq!['f'][0]);
    assert(seq!['i'][0] != seq!['g'][0]);
    assert(seq!['i'][0] != seq!['h'][0]);
    assert(seq!['i'][0] != seq!['j'][0]);
    assert(seq!['i'][0] != seq!['k'][0]);
    assert(seq!['i'][0] != seq!['l'][0]);
    lemma_lookup_parts(seq!['i']);
    lemma_part0(seq!['i']);
    lemma_part1(seq!['i']);
    lemma_part2(seq!['i']);
    lemma_part3(seq!['i']);
    lemma_part4(seq!['i']);
    lemma_part5(seq!['i']);
}

proof fn lemma_resolves_j()
    ensures
        key_of_name("J"@) == Some(Key::J),
        is_ascii_chars("J"@),
        key_of_name(lowercase("J"@)) == Some(Key::J),
        forall|i: int| 0 <= i < "J"@.len() ==> "J"@[i] != '+',
        !bracketed("J"@),
{
    reveal_strlit("J");
    assert(is_ascii_chars("J"@));
    assert(lowercase("J"@) =~= seq!['j']);
    assert(is_ascii_chars(seq!['j']));
    assert(lowercase(seq!['j']) =~= seq!['j']);
    assert(seq!['j'][0] != seq!['a'][0]);
    assert(seq!['j'][0] != seq!['b'][0]);
    assert(seq!['j'][0] != seq!['c'][0]);
    assert(seq!['j'][0] != seq!['d'][0]);
    assert(seq!['j'][0] != seq!['e'][0]);
    assert(seq!['j'][0] != seq!['f'][0]);
    assert(seq!['j'][0] != seq!['g'][0]);
    assert(seq!['j'][0] != seq!['h'][0]);
    assert(seq!['j'][0] != seq!['i'][0]);
    assert(seq!['j'][0] != seq!['k'][0]);
    assert(seq!['j'][0] != seq!['l'][0]);
    lemma_lookup_parts(seq!['j']);
    lemma_part0(seq!['j']);
    lemma_part1(seq!['j']);
    lemma_part2(seq!['j']);
    lemma_part3(seq!['j']);
    lemma_part4(seq!['j']);
    lemma_part5(seq!['j']);
}

proof fn lemma_resolves_k()
    ensures
        key_of_name("K"@) == Some(Key::K),
        is_ascii_chars("K"@),
        key_of_name(lowercase("K"@)) == Some(Key::K),
        forall|i: int| 0 <= i < "K"@.len() ==> "K"@[i] != '+',
        !bracketed("K"@),
{
    reveal_strlit("K");
    assert(is_ascii_chars("K"@));
    assert(lowercase("K"@) =~= seq!['k']);
    assert(is_ascii_chars(seq!['k']));
    assert(lowercase(seq!['k']) =~= seq!['k']);
    assert(seq!['k'][0] != seq!['a'][0]);
    assert(seq!['k'][0] != seq!['b'][0]);
    assert(seq!['k'][0] != seq!['c'][0]);
    assert(seq!['k'][0] != seq!['d'][0]);
    assert(seq!['k'][0] != seq!['e'][0]);
    assert(seq!['k'][0] != seq!['f'][0]);
    assert(seq!['k'][0] != seq!['g'][0]);
    assert(seq!['k'][0] != seq!['h'][0]);
    assert(seq!['k'][0] != seq!['i'][0]);
    assert(seq!['k'][0] != seq!['j'][0]);
    assert(seq!['k'][0] != seq!['l'][0]);
    lemma_lookup_parts(seq!['k']);
    lemma_part0(seq!['k']);
    lemma_part1(seq!['k']);
    lemma_part2(seq!['k']);
    lemma_part3(seq!['k']);
    lemma_part4(seq!['k']);
    lemma_part5(seq!['k']);
}

proof fn lemma_resolves_l()
    ensures
        key_of_name("L"@) == Some(Key::L),
        is_ascii_chars("L"@),
        key_of_name(lowercase("L"@)) == Some(Key::L),
        forall|i: int| 0 <= i < "L"@.len() ==> "L"@[i] != '+',
        !bracketed("L"@),
{
    reveal_strlit("L");
    assert(is_ascii_chars("L"@));
    assert(lowercase("L"@) =~= seq!['l']);
    assert(is_ascii_chars(seq!['l']));
    assert(lowercase(seq!['l']) =~= seq!['l']);
    assert(seq!['l'][0] != seq!['a'][0]);
    assert(seq!['l'][0] != seq!['b'][0]);
    assert(seq!['l'][0] != seq!['c'][0]);
    assert(seq!['l'][0] != seq!['d'][0]);
    assert(seq!['l'][0] != seq!['e'][0]);
    assert(seq!['l'][0] != seq!['f'][0]);
    assert(seq!['l'][0] != seq!['g'][0]);
    assert(seq!['l'][0] != seq!['h'][0]);
    assert(seq!['l'][0] != seq!['i'][0]);
    assert(seq!['l'][0] != seq!['j'][0]);
    assert(seq!['l'][0] != seq!['k'][0]);
    lemma_lookup_parts(seq!['l']);
    lemma_part0(seq!['l']);
    lemma_part1(seq!['l']);
    lemma_part2(seq!['l']);
    lemma_part3(seq!['l']);
    lemma_part4(seq!['l']);
    lemma_part5(seq!['l']);
}

proof fn lemma_resolves_m()
    ensures
        key_of_name("M"@) == Some(Key::M),
        is_ascii_chars("M"@),
        key_of_name(lowercase("M"@)) == Some(Key::M),
        forall|i: int| 0 <= i < "M"@.len() ==> "M"@[i] != '+',
        !bracketed("M"@),
{
    reveal_strlit("M");
    assert(is_ascii_chars("M"@));
    assert(lowercase("M"@) =~= seq!['m']);
    assert(is_ascii_chars(seq!['m']));
    assert(lowercase(seq!['m']) =~= seq!['m']);
    assert(seq!['m'][0] != seq!['a'][0]);
    assert(seq!['m'][0] != seq!['b'][0]);
    assert(seq!['m'][0] != seq!['c'][0]);
    assert(seq!['m'][0] != seq!['d'][0]);
    assert(seq!['m'][0] != seq!['e'][0]);
    assert(seq!['m'][0] != seq!['f'][0]);
    assert(seq!['m'][0] != seq!['g'][0]);
    assert(seq!['m'][0] != seq!['h'][0]);
    assert(seq!['m'][0] != seq!['i'][0]);
    assert(seq!['m'][0] != seq!['j'][0]);
    assert(seq!['m'][0] != seq!['k'][0]);
    assert(seq!['m'][0] != seq!['l'][0]);
    assert(seq!['m'][0] != seq!['n'][0]);
    assert(seq!['m'][0] != seq!['o'][0]);
    assert(seq!['m'][0] != seq!['p'][0]);
    assert(seq!['m'][0] != seq!['q'][0]);
    assert(seq!['m'][0] != seq!['r'][0]);
    assert(seq!['m'][0] != seq!['s'][0]);
    assert(seq!['m'][0] != seq!['t'][0]);
    lemma_lookup_parts(seq!['m']);
    lemma_part0(seq!['m']);
    lemma_part1(seq!['m']);
    lemma_part2(seq!['m']);
    lemma_part3(seq!['m']);
    lemma_part4(seq!['m']);
    lemma_part5(seq!['m']);
    lemma_part6(seq!['m']);
}

proof fn lemma_resolves_n()
    ensures
        key_of_name("N"@) == Some(Key::N),
        is_ascii_chars("N"@),
        key_of_name(lowercase("N"@)) == Some(Key::N),
        forall|i: int| 0 <= i < "N"@.len() ==> "N"@[i] != '+',
        !bracketed("N"@),
{
    reveal_strlit("N");
    assert(is_ascii_chars("N"@));
    assert(lowercase("N"@) =~= seq!['n']);
    assert(is_ascii_chars(seq!['n']));
    assert(lowercase(seq!['n']) =~= seq!['n']);
    assert(seq!['n'][0] != seq!['a'][0]);
    assert(seq!['n'][0] != seq!['b'][0]);
    assert(seq!['n'][0] != seq!['c'][0]);
    assert(seq!['n'][0] != seq!['d'][0]);
    assert(seq!['n'][0] != seq!['e'][0]);
    assert(seq!['n'][0] != seq!['f'][0]);
    assert(seq!['n'][0] != seq!['g'][0]);
    assert(seq!['n'][0] != seq!['h'][0]);
    assert(seq!['n'][0] != seq!['i'][0]);
    assert(seq!['n'][0] != seq!['j'][0]);
    assert(seq!['n'][0] != seq!['k'][0]);
    assert(seq!['n'][0] != seq!['l'][0]);
    assert(seq!['n'][0] != seq!['m'][0]);
    assert(seq!['n'][0] != seq!['o'][0]);
    assert(seq!['n'][0] != seq!['p'][0]);
    assert(seq!['n'][0] != seq!['q'][0]);
    assert(seq!['n'][0] != seq!['r'][0]);
    assert(seq!['n'][0] != seq!['s'][0]);
    assert(seq!['n'][0] != seq!['t'][0]);
    lemma_lookup_parts(seq!['n']);
    lemma_part0(seq!['n']);
    lemma_part1(seq!['n']);
    lemma_part2(seq!['n']);
    lemma_part3(seq!['n']);
    lemma_part4(seq!['n']);
    lemma_part5(seq!['n']);
    lemma_part6(seq!['n']);
}

proof fn lemma_resolves_o()
    ensures
        key_of_name("O"@) == Some(Key::O),
        is_ascii_chars("O"@),
        key_of_name(lowercase("O"@)) == Some(Key::O),
        forall|i: int| 0 <= i < "O"@.len() ==> "O"@[i] != '+',
        !bracketed("O"@),
{
    reveal_strlit("O");
    assert(is_ascii_chars("O"@));
    assert(lowercase("O"@) =~= seq!['o']);
    assert(is_ascii_chars(seq!['o']));
    assert(lowercase(seq!['o']) =~= seq!['o']);
    assert(seq!['o'][0] != seq!['a'][0]);
    assert(seq!['o'][0] != seq!['b'][0]);
    assert(seq!['o'][0] != seq!['c'][0]);
    assert(seq!['o'][0] != seq!['d'][0]);
    assert(seq!['o'][0] != seq!['e'][0]);
    assert(seq!['o'][0] != seq!['f'][0]);
    assert(seq!['o'][0] != seq!['g'][0]);
    assert(seq!['o'][0] != seq!['h'][0]);
    assert(seq!['o'][0] != seq!['i'][0]);
    assert(seq!['o'][0] != seq!['j'][0]);
    assert(seq!['o'][0] != seq!['k'][0]);
    assert(seq!['o'][0] != seq!['l'][0]);
    assert(seq!['o'][0] != seq!['m'][0]);
    assert(seq!['o'][0] != seq!['n'][0]);
    assert(seq!['o'][0] != seq!['p'][0]);
    assert(seq!['o'][0] != seq!['q'][0]);
    assert(seq!['o'][0] != seq!['r'][0]);
    assert(seq!['o'][0] != seq!['s'][0]);
    assert(seq!['o'][0] != seq!['t'][0]);
    lemma_lookup_parts(seq!['o']);
    lemma_part0(seq!['o']);
    lemma_part1(seq!['o']);
    lemma_part2(seq!['o']);
    lemma_part3(seq!['o']);
    lemma_part4(seq!['o']);
    lemma_part5(seq!['o']);
    lemma_part6(seq!['o']);
}

proof fn lemma_resolves_p()
    ensures
        key_of_name("P"@) == Some(Key::P),
        is_ascii_chars("P"@),
        key_of_name(lowercase("P"@)) == Some(Key::P),
        forall|i: int| 0 <= i < "P"@.len() ==> "P"@[i] != '+',
        !bracketed("P"@),
{
    reveal_strlit("P");
    assert(is_ascii_chars("P"@));
    assert(lowercase("P"@) =~= seq!['p']);
    assert(is_ascii_chars(seq!['p']));
    assert(lowercase(seq!['p']) =~= seq!['p']);
    assert(seq!['p'][0] != seq!['a'][0]);
    assert(seq!['p'][0] != seq!['b'][0]);
    assert(seq!['p'][0] != seq!['c'][0]);
    assert(seq!['p'][0] != seq!['d'][0]);
    assert(seq!['p'][0] != seq!['e'][0]);
    assert(seq!['p'][0] != seq!['f'][0]);
    assert(seq!['p'][0] != seq!['g'][0]);
    assert(seq!['p'][0] != seq!['h'][0]);
    assert(seq!['p'][0] != seq!['i'][0]);
    assert(seq!['p'][0] != seq!['j'][0]);
    assert(seq!['p'][0] != seq!['k'][0]);
    assert(seq!['p'][0] != seq!['l'][0]);
    assert(seq!['p'][0] != seq!['m'][0]);
    assert(seq!['p'][0] != seq!['n'][0]);
    assert(seq!['p'][0] != seq!['o'][0]);
    assert(seq!['p'][0] != seq!['q'][0]);
    assert(seq!['p'][0] != seq!['r'][0]);
    assert(seq!['p'][0] != seq!['s'][0]);
    assert(seq!['p'][0] != seq!['t'][0]);
    lemma_lookup_parts(seq!['p']);
    lemma_part0(seq!['p']);
    lemma_part1(seq!['p']);
    lemma_part2(seq!['p']);
    lemma_part3(seq!['p']);
    lemma_part4(seq!['p']);
    lemma_part5(seq!['p']);
    lemma_part6(seq!['p']);
}

proof fn lemma_resolves_q()
    ensures
        key_of_name("Q"@) == Some(Key::Q),
        is_ascii_chars("Q"@),
        key_of_name(lowercase("Q"@)) == Some(Key::Q),
        forall|i: int| 0 <= i < "Q"@.len() ==> "Q"@[i] != '+',
        !bracketed("Q"@),
{
    reveal_strlit("Q");
    assert(is_ascii_chars("Q"@));
    assert(lowercase("Q"@) =~= seq!['q']);
    assert(is_ascii_chars(seq!['q']));
    assert(lowercase(seq!['q']) =~= seq!['q']);
    assert(seq!['q'][0] != seq!['a'][0]);
    assert(seq!['q'][0] != seq!['b'][0]);
    assert(seq!['q'][0] != seq!['c'][0]);
    assert(seq!['q'][0] != seq!['d'][0]);
    assert(seq!['q'][0] != seq!['e'][0]);
    assert(seq!['q'][0] != seq!['f'][0]);
    assert(seq!['q'][0] != seq!['g'][0]);
    assert(seq!['q'][0] != seq!['h'][0]);
    assert(seq!['q'][0] != seq!['i'][0]);
    assert(seq!['q'][0] != seq!['j'][0]);
    assert(seq!['q'][0] != seq!['k'][0]);
    assert(seq!['q'][0] != seq!['l'][0]);
    assert(seq!['q'][0] != seq!['m'][0]);
    assert(seq!['q'][0] != seq!['n'][0]);
    assert(seq!['q'][0] != seq!['o'][0]);
    assert(seq!['q'][0] != seq!['p'][0]);
    assert(seq!['q'][0] != seq!['r'][0]);
    assert(seq!['q'][0] != seq!['s'][0]);
    assert(seq!['q'][0] != seq!['t'][0]);
    lemma_lookup_parts(seq!['q']);
    lemma_part0(seq!['q']);
    lemma_part1(seq!['q']);
    lemma_part2(seq!['q']);
    lemma_part3(seq!['q']);
    lemma_part4(seq!['q']);
    lemma_part5(seq!['q']);
    lemma_part6(seq!['q']);
}

proof fn lemma_resolves_r()
    ensures
        key_of_name("R"@) == Some(Key::R),
        is_ascii_chars("R"@),
        key_of_name(lowercase("R"@)) == Some(Key::R),
        forall|i: int| 0 <= i < "R"@.len() ==> "R"@[i] != '+',
        !bracketed("R"@),
{
    reveal_strlit("R");
    assert(is_ascii_chars("R"@));
    assert(lowercase("R"@) =~= seq!['r']);
    assert(is_ascii_chars(seq!['r']));
    assert(lowercase(seq!['r']) =~= seq!['r']);
    assert(seq!['r'][0] != seq!['a'][0]);
    assert(seq!['r'][0] != seq!['b'][0]);
    assert(seq!['r'][0] != seq!['c'][0]);
    assert(seq!['r'][0] != seq!['d'][0]);
    assert(seq!['r'][0] != seq!['e'][0]);
    assert(seq!['r'][0] != seq!['f'][0]);
    assert(seq!['r'][0] != seq!['g'][0]);
    assert(seq!['r'][0] != seq!['h'][0]);
    assert(seq!['r'][0] != seq!['i'][0]);
    assert(seq!['r'][0] != seq!['j'][0]);
    assert(seq!['r'][0] != seq!['k'][0]);
    assert(seq!['r'][0] != seq!['l'][0]);
    assert(seq!['r'][0] != seq!['m'][0]);
    assert(seq!['r'][0] != seq!['n'][0]);
    assert(seq!['r'][0] != seq!['o'][0]);
    assert(seq!['r'][0] != seq!['p'][0]);
    assert(seq!['r'][0] != seq!['q'][0]);
    assert(seq!['r'][0] != seq!['s'][0]);
    assert(seq!['r'][0] != seq!['t'][0]);
    lemma_lookup_parts(seq!['r']);
    lemma_part0(seq!['r']);
    lemma_part1(seq!['r']);
    lemma_part2(seq!['r']);
    lemma_part3(seq!['r']);
    lemma_part4(seq!['r']);
    lemma_part5(seq!['r']);
    lemma_part6(seq!['r']);
}

proof fn lemma_resolves_s()
    ensures
        key_of_name("S"@) == Some(Key::S),
        is_ascii_chars("S"@),
        key_of_name(lowercase("S"@)) == Some(Key::S),
        forall|i: int| 0 <= i < "S"@.len() ==> "S"@[i] != '+',
        !bracketed("S"@),
{
    reveal_strlit("S");
    assert(is_ascii_chars("S"@));
    assert(lowercase("S"@) =~= seq!['s']);
    assert(is_ascii_chars(seq!['s']));
    assert(lowercase(seq!['s']) =~= seq!['s']);
    assert(seq!['s'][0] != seq!['a'][0]);
    assert(seq!['s'][0] != seq!['b'][0]);
    assert(seq!['s'][0] != seq!['c'][0]);
    assert(seq!['s'][0] != seq!['d'][0]);
    assert(seq!['s'][0] != seq!['e'][0]);
    assert(seq!['s'][0] != seq!['f'][0]);
    assert(seq!['s'][0] != seq!['g'][0]);
    assert(seq!['s'][0] != seq!['h'][0]);
    assert(seq!['s'][0] != seq!['i'][0]);
    assert(seq!['s'][0] != seq!['j'][0]);
    assert(seq!['s'][0] != seq!['k'][0]);
    assert(seq!['s'][0] != seq!['l'][0]);
    assert(seq!['s'][0] != seq!['m'][0]);
    assert(seq!['s'][0] != seq!['n'][0]);
    assert(seq!['s'][0] != seq!['o'][0]);
    assert(seq!['s'][0] != seq!['p'][0]);
    assert(seq!['s'][0] != seq!['q'][0]);
    assert(seq!['s'][0] != seq!['r'][0]);
    assert(seq!['s'][0] != seq!['t'][0]);
    lemma_lookup_parts(seq!['s']);
    lemma_part0(seq!['s']);
    lemma_part1(seq!['s']);
    lemma_part2(seq!['s']);
    lemma_part3(seq!['s']);
    lemma_part4(seq!['s']);
    lemma_part5(seq!['s']);
    lemma_part6(seq!['s']);
}

proof fn lemma_resolves_t()
    ensures
        key_of_name("T"@) == Some(Key::T),
        is_ascii_chars("T"@),
        key_of_name(lowercase("T"@)) == Some(Key::T),
        forall|i: int| 0 <= i < "T"@.len() ==> "T"@[i] != '+',
        !bracketed("T"@),
{
    reveal_strlit("T");
    assert(is_ascii_chars("T"@));
    assert(lowercase("T"@) =~= seq!['t']);
    assert(is_ascii_chars(seq!['t']));
    assert(lowercase(seq!['t']) =~= seq!['t']);
    assert(seq!['t'][0] != seq!['a'][0]);
    assert(seq!['t'][0] != seq!['b'][0]);
    assert(seq!['t'][0] != seq!['c'][0]);
    assert(seq!['t'][0] != seq!['d'][0]);
    assert(seq!['t'][0] != seq!['e'][0]);
    assert(seq!['t'][0] != seq!['f'][0]);
    assert(seq!['t'][0] != seq!['g'][0]);
    assert(seq!['t'][0] != seq!['h'][0]);
    assert(seq!['t'][0] != seq!['i'][0]);
    assert(seq!['t'][0] != seq!['j'][0]);
    assert(seq!['t'][0] != seq!['k'][0]);
    assert(seq!['t'][0] != seq!['l'][0]);
    assert(seq!['t'][0] != seq!['m'][0]);
    assert(seq!['t'][0] != seq!['n'][0]);
    assert(seq!['t'][0] != seq!['o'][0]);
    assert(seq!['t'][0] != seq!['p'][0]);
    assert(seq!['t'][0] != seq!['q'][0]);
    assert(seq!['t'][0] != seq!['r'][0]);
    assert(seq!['t'][0] != seq!['s'][0]);
    lemma_lookup_parts(seq!['t']);
    lemma_part0(seq!['t']);
    lemma_part1(seq!['t']);
    lemma_part2(seq!['t']);
    lemma_part3(seq!['t']);
    lemma_part4(seq!['t']);
    lemma_part5(seq!['t']);
    lemma_part6(seq!['t']);
}

proof fn lemma_resolves_u()
    ensures
        key_of_name("U"@) == Some(Key::U),
        is_ascii_chars("U"@),
        key_of_name(lowercase("U"@)) == Some(Key::U),
        forall|i: int| 0 <= i < "U"@.len() ==> "U"@[i] != '+',
        !bracketed("U"@),
{
    reveal_strlit("U");
    assert(is_ascii_chars("U"@));
    assert(lowercase("U"@) =~= seq!['u']);
    assert(is_ascii_chars(seq!['u']));
    assert(lowercase(seq!['u']) =~= seq!['u']);
    assert(seq!['u'][0] != seq!['a'][0]);
    assert(seq!['u'][0] != seq!['b'][0]);
    assert(seq!['u'][0] != seq!['c'][0]);
    assert(seq!['u'][0] != seq!['d'][0]);
    assert(seq!['u'][0] != seq!['e'][0]);
    assert(seq!['u'][0] != seq!['f'][0]);
    assert(seq!['u'][0] != seq!['g'][0]);
    assert(seq!['u'][0] != seq!['h'][0]);
    assert(seq!['u'][0] != seq!['i'][0]);
    assert(seq!['u'][0] != seq!['j'][0]);
    assert(seq!['u'][0] != seq!['k'][0]);
    assert(seq!['u'][0] != seq!['l'][0]);
    assert(seq!['u'][0] != seq!['m'][0]);
    assert(seq!['u'][0] != seq!['n'][0]);
    assert(seq!['u'][0] != seq!['o'][0]);
    assert(seq!['u'][0] != seq!['p'][0]);
    assert(seq!['u'][0] != seq!['q'][0]);
    assert(seq!['u'][0] != seq!['r'][0]);
    assert(seq!['u'][0] != seq!['s'][0]);
    assert(seq!['u'][0] != seq!['t'][0]);
    assert(seq!['u'][0] != seq!['v'][0]);
    assert(seq!['u'][0] != seq!['w'][0]);
    assert(seq!['u'][0] != seq!['x'][0]);
    assert(seq!['u'][0] != seq!['y'][0]);
    assert(seq!['u'][0] != seq!['z'][0]);
    assert(seq!['u'][0] != seq!['0'][0]);
    assert(seq!['u'][0] != seq!['1'][0]);
    lemma_lookup_parts(seq!['u']);
    lemma_part0(seq!['u']);
    lemma_part1(seq!['u']);
    lemma_part2(seq!['u']);
    lemma_part3(seq!['u']);
    lemma_part4(seq!['u']);
    lemma_part5(seq!['u']);
    lemma_part6(seq!['u']);
    lemma_part7(seq!['u']);
}

proof fn lemma_resolves_v()
    ensures
        key_of_name("V"@) == Some(Key::V),
        is_ascii_chars("V"@),
        key_of_name(lowercase("V"@)) == Some(Key::V),
        forall|i: int| 0 <= i < "V"@.len() ==> "V"@[i] != '+',
        !bracketed("V"@),
{
    reveal_strlit("V");
    assert(is_ascii_chars("V"@));
    assert(lowercase("V"@) =~= seq!['v']);
    assert(is_ascii_chars(seq!['v']));
    assert(lowercase(seq!['v']) =~= seq!['v']);
    assert(seq!['v'][0] != seq!['a'][0]);
    assert(seq!['v'][0] != seq!['b'][0]);
    assert(seq!['v'][0] != seq!['c'][0]);
    assert(seq!['v'][0] != seq!['d'][0]);
    assert(seq!['v'][0] != seq!['e'][0]);
    assert(seq!['v'][0] != seq!['f'][0]);
    assert(seq!['v'][0] != seq!['g'][0]);
    assert(seq!['v'][0] != seq!['h'][0]);
    assert(seq!['v'][0] != seq!['i'][0]);
    assert(seq!['v'][0] != seq!['j'][0]);
    assert(seq!['v'][0] != seq!['k'][0]);
    assert(seq!['v'][0] != seq!['l'][0]);
    assert(seq!['v'][0] != seq!['m'][0]);
    assert(seq!['v'][0] != seq!['n'][0]);
    assert(seq!['v'][0] != seq!['o'][0]);
    assert(seq!['v'][0] != seq!['p'][0]);
    assert(seq!['v'][0] != seq!['q'][0]);
    assert(seq!['v'][0] != seq!['r'][0]);
    assert(seq!['v'][0] != seq!['s'][0]);
    assert(seq!['v'][0] != seq!['t'][0]);
    assert(seq!['v'][0] != seq!['u'][0]);
    assert(seq!['v'][0] != seq!['w'][0]);
    assert(seq!['v'][0] != seq!['x'][0]);
    assert(seq!['v'][0] != seq!['y'][0]);
    assert(seq!['v'][0] != seq!['z'][0]);
    assert(seq!['v'][0] != seq!['0'][0]);
    assert(seq!['v'][0] != seq!['1'][0]);
    lemma_lookup_parts(seq!['v']);
    lemma_part0(seq!['v']);
    lemma_part1(seq!['v']);
    lemma_part2(seq!['v']);
    lemma_part3(seq!['v']);
    lemma_part4(seq!['v']);
    lemma_part5(seq!['v']);
    lemma_part6(seq!['v']);
    lemma_part7(seq!['v']);
}

proof fn lemma_resolves_w()
    ensures
        key_of_name("W"@) == Some(Key::W),
        is_ascii_chars("W"@),
        key_of_name(lowercase("W"@)) == Some(Key::W),
        forall|i: int| 0 <= i < "W"@.len() ==> "W"@[i] != '+',
        !bracketed("W"@),
{
    reveal_strlit("W");
    assert(is_ascii_chars("W"@));
    assert(lowercase("W"@) =~= seq!['w']);
    assert(is_ascii_chars(seq!['w']));
    assert(lowercase(seq!['w']) =~= seq!['w']);
    assert(seq!['w'][0] != seq!['a'][0]);
    assert(seq!['w'][0] != seq!['b'][0]);
    assert(seq!['w'][0] != seq!['c'][0]);
    assert(seq!['w'][0] != seq!['d'][0]);
    assert(seq!['w'][0] != seq!['e'][0]);
    assert(seq!['w'][0] != seq!['f'][0]);
    assert(seq!['w'][0] != seq!['g'][0]);
    assert(seq!['w'][0] != seq!['h'][0]);
    assert(seq!['w'][0] != seq!['i'][0]);
    assert(seq!['w'][0] != seq!['j'][0]);
    assert(seq!['w'][0] != seq!['k'][0]);
    assert(seq!['w'][0] != seq!['l'][0]);
    assert(seq!['w'][0] != seq!['m'][0]);
    assert(seq!['w'][0] != seq!['n'][0]);
    assert(seq!['w'][0] != seq!['o'][0]);
    assert(seq!['w'][0] != seq!['p'][0]);
    assert(seq!['w'][0] != seq!['q'][0]);
    assert(seq!['w'][0] != seq!['r'][0]);
    assert(seq!['w'][0] != seq!['s'][0]);
    assert(seq!['w'][0] != seq!['t'][0]);
    assert(seq!['w'][0] != seq!['u'][0]);
    assert(seq!['w'][0] != seq!['v'][0]);
    assert(seq!['w'][0] != seq!['x'][0]);
    assert(seq!['w'][0] != seq!['y'][0]);
    assert(seq!['w'][0] != seq!['z'][0]);
    assert(seq!['w'][0] != seq!['0'][0]);
    assert(seq!['w'][0] != seq!['1'][0]);
    lemma_lookup_parts(seq!['w']);
    lemma_part0(seq!['w']);
    lemma_part1(seq!['w']);
    lemma_part2(seq!['w']);
    lemma_part3(seq!['w']);
    lemma_part4(seq!['w']);
    lemma_part5(seq!['w']);
    lemma_part6(seq!['w']);
    lemma_part7(seq!['w']);
}

proof fn lemma_resolves_x()
    ensures
        key_of_name("X"@) == Some(Key::X),
        is_ascii_chars("X"@),
        key_of_name(lowercase("X"@)) == Some(Key::X),
        forall|i: int| 0 <= i < "X"@.len() ==> "X"@[i] != '+',
        !bracketed("X"@),
{
    reveal_strlit("X");
    assert(is_ascii_chars("X"@));
    assert(lowercase("X"@) =~= seq!['x']);
    assert(is_ascii_chars(seq!['x']));
    assert(lowercase(seq!['x']) =~= seq!['x']);
    assert(seq!['x'][0] != seq!['a'][0]);
    assert(seq!['x'][0] != seq!['b'][0]);
    assert(seq!['x'][0] != seq!['c'][0]);
    assert(seq!['x'][0] != seq!['d'][0]);
    assert(seq!['x'][0] != seq!['e'][0]);
    assert(seq!['x'][0] != seq!['f'][0]);
    assert(seq!['x'][0] != seq!['g'][0]);
    assert(seq!['x'][0] != seq!['h'][0]);
    assert(seq!['x'][0] != seq!['i'][0]);
    assert(seq!['x'][0] != seq!['j'][0]);
    assert(seq!['x'][0] != seq!['k'][0]);
    assert(seq!['x'][0] != seq!['l'][0]);
    assert(seq!['x'][0] != seq!['m'][0]);
    assert(seq!['x'][0] != seq!['n'][0]);
    assert(seq!['x'][0] != seq!['o'][0]);
    assert(seq!['x'][0] != seq!['p'][0]);
    assert(seq!['x'][0] != seq!['q'][0]);
    assert(seq!['x'][0] != seq!['r'][0]);
    assert(seq!['x'][0] != seq!['s'][0]);
    assert(seq!['x'][0] != seq!['t'][0]);
    assert(seq!['x'][0] != seq!['u'][0]);
    assert(seq!['x'][0] != seq!['v'][0]);
    assert(seq!['x'][0] != seq!['w'][0]);
    assert(seq!['x'][0] != seq!['y'][0]);
    assert(seq!['x'][0] != seq!['z'][0]);
    assert(seq!['x'][0] != seq!['0'][0]);
    assert(seq!['x'][0] != seq!['1'][0]);
    lemma_lookup_parts(seq!['x']);
    lemma_part0(seq!['x']);
    lemma_part1(seq!['x']);
    lemma_part2(seq!['x']);
    lemma_part3(seq!['x']);
    lemma_part4(seq!['x']);
    lemma_part5(seq!['x']);
    lemma_part6(seq!['x']);
    lemma_part7(seq!['x']);
}

proof fn lemma_resolves_y()
    ensures
        key_of_name("Y"@) == Some(Key::Y),
        is_ascii_chars("Y"@),
        key_of_name(lowercase("Y"@)) == Some(Key::Y),
        forall|i: int| 0 <= i < "Y"@.len() ==> "Y"@[i] != '+',
        !bracketed("Y"@),
{
    reveal_strlit("Y");
    assert(is_ascii_chars("Y"@));
    assert(lowercase("Y"@) =~= seq!['y']);
    assert(is_ascii_chars(seq!['y']));
    assert(lowercase(seq!['y']) =~= seq!['y']);
    assert(seq!['y'][0] != seq!['a'][0]);
    assert(seq!['y'][0] != seq!['b'][0]);
    assert(seq!['y'][0] != seq!['c'][0]);
    assert(seq!['y'][0] != seq!['d'][0]);
    assert(seq!['y'][0] != seq!['e'][0]);
    assert(seq!['y'][0] != seq!['f'][0]);
    assert(seq!['y'][0] != seq!['g'][0]);
    assert(seq!['y'][0] != seq!['h'][0]);
    assert(seq!['y'][0] != seq!['i'][0]);
    assert(seq!['y'][0] != seq!['j'][0]);
    assert(seq!['y'][0] != seq!['k'][0]);
    assert(seq!['y'][0] != seq!['l'][0]);
    assert(seq!['y'][0] != seq!['m'][0]);
    assert(seq!['y'][0] != seq!['n'][0]);
    assert(seq!['y'][0] != seq!['o'][0]);
    assert(seq!['y'][0] != seq!['p'][0]);
    assert(seq!['y'][0] != seq!['q'][0]);
    assert(seq!['y'][0] != seq!['r'][0]);
    assert(seq!['y'][0] != seq!['s'][0]);
    assert(seq!['y'][0] != seq!['t'][0]);
    assert(seq!['y'][0] != seq!['u'][0]);
    assert(seq!['y'][0] != seq!['v'][0]);
    assert(seq!['y'][0] != seq!['w'][0]);
    assert(seq!['y'][0] != seq!['x'][0]);
    assert(seq!['y'][0] != seq!['z'][0]);
    assert(seq!['y'][0] != seq!['0'][0]);
    assert(seq!['y'][0] != seq!['1'][0]);
    lemma_lookup_parts(seq!['y']);
    lemma_part0(seq!['y']);
    lemma_part1(seq!['y']);
    lemma_part2(seq!['y']);
    lemma_part3(seq!['y']);
    lemma_part4(seq!['y']);
    lemma_part5(seq!['y']);
    lemma_part6(seq!['y']);
    lemma_part7(seq!['y']);
}

proof fn lemma_resolves_z()
    ensures
        key_of_name("Z"@) == Some(Key::Z),
        is_ascii_chars("Z"@),
        key_of_name(lowercase("Z"@)) == Some(Key::Z),
        forall|i: int| 0 <= i < "Z"@.len() ==> "Z"@[i] != '+',
        !bracketed("Z"@),
{
    reveal_strlit("Z");
    assert(is_ascii_chars("Z"@));
    assert(lowercase("Z"@) =~= seq!['z']);
    assert(is_ascii_chars(seq!['z']));
    assert(lowercase(seq!['z']) =~= seq!['z']);
    assert(seq!['z'][0] != seq!['a'][0]);
    assert(seq!['z'][0] != seq!['b'][0]);
    assert(seq!['z'][0] != seq!['c'][0]);
    assert(seq!['z'][0] != seq!['d'][0]);
    assert(seq!['z'][0] != seq!['e'][0]);
    assert(seq!['z'][0] != seq!['f'][0]);
    assert(seq!['z'][0] != seq!['g'][0]);
    assert(seq!['z'][0] != seq!['h'][0]);
    assert(seq!['z'][0] != seq!['i'][0]);
    assert(seq!['z'][0] != seq!['j'][0]);
    assert(seq!['z'][0] != seq!['k'][0]);
    assert(seq!['z'][0] != seq!['l'][0]);
    assert(seq!['z'][0] != seq!['m'][0]);
    assert(seq!['z'][0] != seq!['n'][0]);
    assert(seq!['z'][0] != seq!['o'][0]);
    assert(seq!['z'][0] != seq!['p'][0]);
    assert(seq!['z'][0] != seq!['q'][0]);
    assert(seq!['z'][0] != seq!['r'][0]);
    assert(seq!['z'][0] != seq!['s'][0]);
    assert(seq!['z'][0] != seq!['t'][0]);
    assert(seq!['z'][0] != seq!['u'][0]);
    assert(seq!['z'][0] != seq!['v'][0]);
    assert(seq!['z'][0] != seq!['w'][0]);
    assert(seq!['z'][0] != seq!['x'][0]);
    assert(seq!['z'][0] != seq!['y'][0]);
    assert(seq!['z'][0] != seq!['0'][0]);
    assert(seq!['z'][0] != seq!['1'][0]);
    lemma_lookup_parts(seq!['z']);
    lemma_part0(seq!['z']);
    lemma_part1(seq!['z']);
    lemma_part2(seq!['z']);
    lemma_part3(seq!['z']);
    lemma_part4(seq!['z']);
    lemma_part5(seq!['z']);
    lemma_part6(seq!['z']);
    lemma_part7(seq!['z']);
}

proof fn lemma_resolves_num0()
    ensures
        key_of_name("0"@) == Some(Key::Num0),
        is_ascii_chars("0"@),
        key_of_name(lowercase("0"@)) == Some(Key::Num0),
        forall|i: int| 0 <= i < "0"@.len() ==> "0"@[i] != '+',
        !bracketed("0"@),
{
    reveal_strlit("0");
    assert(is_ascii_chars("0"@));
    assert(lowercase("0"@) =~= seq!['0']);
    assert(is_ascii_chars(seq!['0']));
    assert(lowercase(seq!['0']) =~= seq!['0']);
    assert(seq!['0'][0] != seq!['a'][0]);
    assert(seq!['0'][0] != seq!['b'][0]);
    assert(seq!['0'][0] != seq!['c'][0]);
    assert(seq!['0'][0] != seq!['d'][0]);
    assert(seq!['0'][0] != seq!['e'][0]);
    assert(seq!['0'][0] != seq!['f'][0]);
    assert(seq!['0'][0] != seq!['g'][0]);
    assert(seq!['0'][0] != seq!['h'][0]);
    assert(seq!['0'][0] != seq!['i'][0]);
    assert(seq!['0'][0] != seq!['j'][0]);
    assert(seq!['0'][0] != seq!['k'][0]);
    assert(seq!['0'][0] != seq!['l'][0]);
    assert(seq!['0'][0] != seq!['m'][0]);
    assert(seq!['0'][0] != seq!['n'][0]);
    assert(seq!['0'][0] != seq!['o'][0]);
    assert(seq!['0'][0] != seq!['p'][0]);
    assert(seq!['0'][0] != seq!['q'][0]);
    assert(seq!['0'][0] != seq!['r'][0]);
    assert(seq!['0'][0] != seq!['s'][0]);
    assert(seq!['0'][0] != seq!['t'][0]);
    assert(seq!['0'][0] != seq!['u'][0]);
    assert(seq!['0'][0] != seq!['v'][0]);
    assert(seq!['0'][0] != seq!['w'][0]);
    assert(seq!['0'][0] != seq!['x'][0]);
    assert(seq!['0'][0] != seq!['y'][0]);
    assert(seq!['0'][0] != seq!['z'][0]);
    assert(seq!['0'][0] != seq!['1'][0]);
    lemma_lookup_parts(seq!['0']);
    lemma_part0(seq!['0']);
    lemma_part1(seq!['0']);
    lemma_part2(seq!['0']);
    lemma_part3(seq!['0']);
    lemma_part4(seq!['0']);
    lemma_part5(seq!['0']);
    lemma_part6(seq!['0']);
    lemma_part7(seq!['0']);
}

proof fn lemma_resolves_num1()
    ensures
        key_of_name("1"@) == Some(Key::Num1),
        is_ascii_chars("1"@),
        key_of_name(lowercase("1"@)) == Some(Key::Num1),
        forall|i: int| 0 <= i < "1"@.len() ==> "1"@[i] != '+',
        !bracketed("1"@),
{
    reveal_strlit("1");
    assert(is_ascii_chars("1"@));
    assert(lowercase("1"@) =~= seq!['1']);
    assert(is_ascii_chars(seq!['1']));
    assert(lowercase(seq!['1']) =~= seq!['1']);
    assert(seq!['1'][0] != seq!['a'][0]);
    assert(seq!['1'][0] != seq!['b'][0]);
    assert(seq!['1'][0] != seq!['c'][0]);
    assert(seq!['1'][0] != seq!['d'][0]);
    assert(seq!['1'][0] != seq!['e'][0]);
    assert(seq!['1'][0] != seq!['f'][0]);
    assert(seq!['1'][0] != seq!['g'][0]);
    assert(seq!['1'][0] != seq!['h'][0]);
    assert(seq!['1'][0] != seq!['i'][0]);
    assert(seq!['1'][0] != seq!['j'][0]);
    assert(seq!['1'][0] != seq!['k'][0]);
    assert(seq!['1'][0] != seq!['l'][0]);
    assert(seq!['1'][0] != seq!['m'][0]);
    assert(seq!['1'][0] != seq!['n'][0]);
    assert(seq!['1'][0] != seq!['o'][0]);
    assert(seq!['1'][0] != seq!['p'][0]);
    assert(seq!['1'][0] != seq!['q'][0]);
    assert(seq!['1'][0] != seq!['r'][0]);
    assert(seq!['1'][0] != seq!['s'][0]);
    assert(seq!['1'][0] != seq!['t'][0]);
    assert(seq!['1'][0] != seq!['u'][0]);
    assert(seq!['1'][0] != seq!['v'][0]);
    assert(seq!['1'][0] != seq!['w'][0]);
    assert(seq!['1'][0] != seq!['x'][0]);
    assert(seq!['1'][0] != seq!['y'][0]);
    assert(seq!['1'][0] != seq!['z'][0]);
    assert(seq!['1'][0] != seq!['0'][0]);
    lemma_lookup_parts(seq!['1']);
    lemma_part0(seq!['1']);
    lemma_part1(seq!['1']);
    lemma_part2(seq!['1']);
    lemma_part3(seq!['1']);
    lemma_part4(seq!['1']);
    lemma_part5(seq!['1']);
    lemma_part6(seq!['1']);
    lemma_part7(seq!['1']);
}

proof fn lemma_resolves_num2()
    ensures
        key_of_name("2"@) == Some(Key::Num2),
        is_ascii_chars("2"@),
        key_of_name(lowercase("2"@)) == Some(Key::Num2),
        forall|i: int| 0 <= i < "2"@.len() ==> "2"@[i] != '+',
        !bracketed("2"@),
{
    reveal_strlit("2");
    assert(is_ascii_chars("2"@));
    assert(lowercase("2"@) =~= seq!['2']);
    assert(is_ascii_chars(seq!['2']));
    assert(lowercase(seq!['2']) =~= seq!['2']);
    assert(seq!['2'][0] != seq!['a'][0]);
    assert(seq!['2'][0] != seq!['b'][0]);
    assert(seq!['2'][0] != seq!['c'][0]);
    assert(seq!['2'][0] != seq!['d'][0]);
    assert(seq!['2'][0] != seq!['e'][0]);
    assert(seq!['2'][0] != seq!['f'][0]);
    assert(seq!['2'][0] != seq!['g'][0]);
    assert(seq!['2'][0] != seq!['h'][0]);
    assert(seq!['2'][0] != seq!['i'][0]);
    assert(seq!['2'][0] != seq!['j'][0]);
    assert(seq!['2'][0] != seq!['k'][0]);
    assert(seq!['2'][0] != seq!['l'][0]);
    assert(seq!['2'][0] != seq!['m'][0]);
    assert(seq!['2'][0] != seq!['n'][0]);
    assert(seq!['2'][0] != seq!['o'][0]);
    assert(seq!['2'][0] != seq!['p'][0]);
    assert(seq!['2'][0] != seq!['q'][0]);
    assert(seq!['2'][0] != seq!['r'][0]);
    assert(seq!['2'][0] != seq!['s'][0]);
    assert(seq!['2'][0] != seq!['t'][0]);
    assert(seq!['2'][0] != seq!['u'][0]);
    assert(seq!['2'][0] != seq!['v'][0]);
    assert(seq!['2'][0] != seq!['w'][0]);
    assert(seq!['2'][0] != seq!['x'][0]);
    assert(seq!['2'][0] != seq!['y'][0]);
    assert(seq!['2'][0] != seq!['z'][0]);
    assert(seq!['2'][0] != seq!['0'][0]);
    assert(seq!['2'][0] != seq!['1'][0]);
    assert(seq!['2'][0] != seq!['3'][0]);
    assert(seq!['2'][0] != seq!['4'][0]);
    assert(seq!['2'][0] != seq!['5'][0]);
    assert(seq!['2'][0] != seq!['6'][0]);
    assert(seq!['2'][0] != seq!['7'][0]);
    assert(seq!['2'][0] != seq!['8'][0]);
    assert(seq!['2'][0] != seq!['9'][0]);
    lemma_lookup_parts(seq!['2']);
    lemma_part0(seq!['2']);
    lemma_part1(seq!['2']);
    lemma_part2(seq!['2']);
    lemma_part3(seq!['2']);
    lemma_part4(seq!['2']);
    lemma_part5(seq!['2']);
    lemma_part6(seq!['2']);
    lemma_part7(seq!['2']);
    lemma_part8(seq!['2']);
}

proof fn lemma_resolves_num3()
    ensures
        key_of_name("3"@) == Some(Key::Num3),
        is_ascii_chars("3"@),
        key_of_name(lowercase("3"@)) == Some(Key::Num3),
        forall|i: int| 0 <= i < "3"@.len() ==> "3"@[i] != '+',
        !bracketed("3"@),
{
    reveal_strlit("3");
    assert(is_ascii_chars("3"@));
    assert(lowercase("3"@) =~= seq!['3']);
    assert(is_ascii_chars(seq!['3']));
    assert(lowercase(seq!['3']) =~= seq!['3']);
    assert(seq!['3'][0] != seq!['a'][0]);
    assert(seq!['3'][0] != seq!['b'][0]);
    assert(seq!['3'][0] != seq!['c'][0]);
    assert(seq!['3'][0] != seq!['d'][0]);
    assert(seq!['3'][0] != seq!['e'][0]);
    assert(seq!['3'][0] != seq!['f'][0]);
    assert(seq!['3'][0] != seq!['g'][0]);
    assert(seq!['3'][0] != seq!['h'][0]);
    assert(seq!['3'][0] != seq!['i'][0]);
    assert(seq!['3'][0] != seq!['j'][0]);
    assert(seq!['3'][0] != seq!['k'][0]);
    assert(seq!['3'][0] != seq!['l'][0]);
    assert(seq!['3'][0] != seq!['m'][0]);
    assert(seq!['3'][0] != seq!['n'][0]);
    assert(seq!['3'][0] != seq!['o'][0]);
    assert(seq!['3'][0] != seq!['p'][0]);
    assert(seq!['3'][0] != seq!['q'][0]);
    assert(seq!['3'][0] != seq!['r'][0]);
    assert(seq!['3'][0] != seq!['s'][0]);
    assert(seq!['3'][0] != seq!['t'][0]);
    assert(seq!['3'][0] != seq!['u'][0]);
    assert(seq!['3'][0] != seq!['v'][0]);
    assert(seq!['3'][0] != seq!['w'][0]);
    assert(seq!['3'][0] != seq!['x'][0]);
    assert(seq!['3'][0] != seq!['y'][0]);
    assert(seq!['3'][0] != seq!['z'][0]);
    assert(seq!['3'][0] != seq!['0'][0]);
    assert(seq!['3'][0] != seq!['1'][0]);
    assert(seq!['3'][0] != seq!['2'][0]);
    assert(seq!['3'][0] != seq!['4'][0]);
    assert(seq!['3'][0] != seq!['5'][0]);
    assert(seq!['3'][0] != seq!['6'][0]);
    assert(seq!['3'][0] != seq!['7'][0]);
    assert(seq!['3'][0] != seq!['8'][0]);
    assert(seq!['3'][0] != seq!['9'][0]);
    lemma_lookup_parts(seq!['3']);
    lemma_part0(seq!['3']);
    lemma_part1(seq!['3']);
    lemma_part2(seq!['3']);
    lemma_part3(seq!['3']);
    lemma_part4(seq!['3']);
    lemma_part5(seq!['3']);
    lemma_part6(seq!['3']);
    lemma_part7(seq!['3']);
    lemma_part8(seq!['3']);
}

proof fn lemma_resolves_num4()
    ensures
        key_of_name("4"@) == Some(Key::Num4),
        is_ascii_chars("4"@),
        key_of_name(lowercase("4"@)) == Some(Key::Num4),
        forall|i: int| 0 <= i < "4"@.len() ==> "4"@[i] != '+',
        !bracketed("4"@),
{
    reveal_strlit("4");
    assert(is_ascii_chars("4"@));
    assert(lowercase("4"@) =~= seq!['4']);
    assert(is_ascii_chars(seq!['4']));
    assert(lowercase(seq!['4']) =~= seq!['4']);
    assert(seq!['4'][0] != seq!['a'][0]);
    assert(seq!['4'][0] != seq!['b'][0]);
    assert(seq!['4'][0] != seq!['c'][0]);
    assert(seq!['4'][0] != seq!['d'][0]);
    assert(seq!['4'][0] != seq!['e'][0]);
    assert(seq!['4'][0] != seq!['f'][0]);
    assert(seq!['4'][0] != seq!['g'][0]);
    assert(seq!['4'][0] != seq!['h'][0]);
    assert(seq!['4'][0] != seq!['i'][0]);
    assert(seq!['4'][0] != seq!['j'][0]);
    assert(seq!['4'][0] != seq!['k'][0]);
    assert(seq!['4'][0] != seq!['l'][0]);
    assert(seq!['4'][0] != seq!['m'][0]);
    assert(seq!['4'][0] != seq!['n'][0]);
    assert(seq!['4'][0] != seq!['o'][0]);
    assert(seq!['4'][0] != seq!['p'][0]);
    assert(seq!['4'][0] != seq!['q'][0]);
    assert(seq!['4'][0] != seq!['r'][0]);
    assert(seq!['4'][0] != seq!['s'][0]);
    assert(seq!['4'][0] != seq!['t'][0]);
    assert(seq!['4'][0] != seq!['u'][0]);
    assert(seq!['4'][0] != seq!['v'][0]);
    assert(seq!['4'][0] != seq!['w'][0]);
    assert(seq!['4'][0] != seq!['x'][0]);
    assert(seq!['4'][0] != seq!['y'][0]);
    assert(seq!['4'][0] != seq!['z'][0]);
    assert(seq!['4'][0] != seq!['0'][0]);
    assert(seq!['4'][0] != seq!['1'][0]);
    assert(seq!['4'][0] != seq!['2'][0]);
    assert(seq!['4'][0] != seq!['3'][0]);
    assert(seq!['4'][0] != seq!['5'][0]);
    assert(seq!['4'][0] != seq!['6'][0]);
    assert(seq!['4'][0] != seq!['7'][0]);
    assert(seq!['4'][0] != seq!['8'][0]);
    assert(seq!['4'][0] != seq!['9'][0]);
    lemma_lookup_parts(seq!['4']);
    lemma_part0(seq!['4']);
    lemma_part1(seq!['4']);
    lemma_part2(seq!['4']);
    lemma_part3(seq!['4']);
    lemma_part4(seq!['4']);
    lemma_part5(seq!['4']);
    lemma_part6(seq!['4']);
    lemma_part7(seq!['4']);
    lemma_part8(seq!['4']);
}

proof fn lemma_resolves_num5()
    ensures
        key_of_name("5"@) == Some(Key::Num5),
        is_ascii_chars("5"@),
        key_of_name(lowercase("5"@)) == Some(Key::Num5),
        forall|i: int| 0 <= i < "5"@.len() ==> "5"@[i] != '+',
        !bracketed("5"@),
{
    reveal_strlit("5");
    assert(is_ascii_chars("5"@));
    assert(lowercase("5"@) =~= seq!['5']);
    assert(is_ascii_chars(seq!['5']));
    assert(lowercase(seq!['5']) =~= seq!['5']);
    assert(seq!['5'][0] != seq!['a'][0]);
    assert(seq!['5'][0] != seq!['b'][0]);
    assert(seq!['5'][0] != seq!['c'][0]);
    assert(seq!['5'][0] != seq!['d'][0]);
    assert(seq!['5'][0] != seq!['e'][0]);
    assert(seq!['5'][0] != seq!['f'][0]);
    assert(seq!['5'][0] != seq!['g'][0]);
    assert(seq!['5'][0] != seq!['h'][0]);
    assert(seq!['5'][0] != seq!['i'][0]);
    assert(seq!['5'][0] != seq!['j'][0]);
    assert(seq!['5'][0] != seq!['k'][0]);
    assert(seq!['5'][0] != seq!['l'][0]);
    assert(seq!['5'][0] != seq!['m'][0]);
    assert(seq!['5'][0] != seq!['n'][0]);
    assert(seq!['5'][0] != seq!['o'][0]);
    assert(seq!['5'][0] != seq!['p'][0]);
    assert(seq!['5'][0] != seq!['q'][0]);
    assert(seq!['5'][0] != seq!['r'][0]);
    assert(seq!['5'][0] != seq!['s'][0]);
    assert(seq!['5'][0] != seq!['t'][0]);
    assert(seq!['5'][0] != seq!['u'][0]);
    assert(seq!['5'][0] != seq!['v'][0]);
    assert(seq!['5'][0] != seq!['w'][0]);
    assert(seq!['5'][0] != seq!['x'][0]);
    assert(seq!['5'][0] != seq!['y'][0]);
    assert(seq!['5'][0] != seq!['z'][0]);
    assert(seq!['5'][0] != seq!['0'][0]);
    assert(seq!['5'][0] != seq!['1'][0]);
    assert(seq!['5'][0] != seq!['2'][0]);
    assert(seq!['5'][0] != seq!['3'][0]);
    assert(seq!['5'][0] != seq!['4'][0]);
    assert(seq!['5'][0] != seq!['6'][0]);
    assert(seq!['5'][0] != seq!['7'][0]);
    assert(seq!['5'][0] != seq!['8'][0]);
    assert(seq!['5'][0] != seq!['9'][0]);
    lemma_lookup_parts(seq!['5']);
    lemma_part0(seq!['5']);
    lemma_part1(seq!['5']);
    lemma_part2(seq!['5']);
    lemma_part3(seq!['5']);
    lemma_part4(seq!['5']);
    lemma_part5(seq!['5']);
    lemma_part6(seq!['5']);
    lemma_part7(seq!['5']);
    lemma_part8(seq!['5']);
}

proof fn lemma_resolves_num6()
    ensures
        key_of_name("6"@) == Some(Key::Num6),
        is_ascii_chars("6"@),
        key_of_name(lowercase("6"@)) == Some(Key::Num6),
        forall|i: int| 0 <= i < "6"@.len() ==> "6"@[i] != '+',
        !bracketed("6"@),
{
    reveal_strlit("6");
    assert(is_ascii_chars("6"@));
    assert(lowercase("6"@) =~= seq!['6']);
    assert(is_ascii_chars(seq!['6']));
    assert(lowercase(seq!['6']) =~= seq!['6']);
    assert(seq!['6'][0] != seq!['a'][0]);
    assert(seq!['6'][0] != seq!['b'][0]);
    assert(seq!['6'][0] != seq!['c'][0]);
    assert(seq!['6'][0] != seq!['d'][0]);
    assert(seq!['6'][0] != seq!['e'][0]);
    assert(seq!['6'][0] != seq!['f'][0]);
    assert(seq!['6'][0] != seq!['g'][0]);
    assert(seq!['6'][0] != seq!['h'][0]);
    assert(seq!['6'][0] != seq!['i'][0]);
    assert(seq!['6'][0] != seq!['j'][0]);
    assert(seq!['6'][0] != seq!['k'][0]);
    assert(seq!['6'][0] != seq!['l'][0]);
    assert(seq!['6'][0] != seq!['m'][0]);
    assert(seq!['6'][0] != seq!['n'][0]);
    assert(seq!['6'][0] != seq!['o'][0]);
    assert(seq!['6'][0] != seq!['p'][0]);
    assert(seq!['6'][0] != seq!['q'][0]);
    assert(seq!['6'][0] != seq!['r'][0]);
    assert(seq!['6'][0] != seq!['s'][0]);
    assert(seq!['6'][0] != seq!['t'][0]);
    assert(seq!['6'][0] != seq!['u'][0]);
    assert(seq!['6'][0] != seq!['v'][0]);
    assert(seq!['6'][0] != seq!['w'][0]);
    assert(seq!['6'][0] != seq!['x'][0]);
    assert(seq!['6'][0] != seq!['y'][0]);
    assert(seq!['6'][0] != seq!['z'][0]);
    assert(seq!['6'][0] != seq!['0'][0]);
    assert(seq!['6'][0] != seq!['1'][0]);
    assert(seq!['6'][0] != seq!['2'][0]);
    assert(seq!['6'][0] != seq!['3'][0]);
    assert(seq!['6'][0] != seq!['4'][0]);
    assert(seq!['6'][0] != seq!['5'][0]);
    assert(seq!['6'][0] != seq!['7'][0]);
    assert(seq!['6'][0] != seq!['8'][0]);
    assert(seq!['6'][0] != seq!['9'][0]);
    lemma_lookup_parts(seq!['6']);
    lemma_part0(seq!['6']);
    lemma_part1(seq!['6']);
    lemma_part2(seq!['6']);
    lemma_part3(seq!['6']);
    lemma_part4(seq!['6']);
    lemma_part5(seq!['6']);
    lemma_part6(seq!['6']);
    lemma_part7(seq!['6']);
    lemma_part8(seq!['6']);
}

proof fn lemma_resolves_num7()
    ensures
        key_of_name("7"@) == Some(Key::Num7),
        is_ascii_chars("7"@),
        key_of_name(lowercase("7"@)) == Some(Key::Num7),
        forall|i: int| 0 <= i < "7"@.len() ==> "7"@[i] != '+',
        !bracketed("7"@),
{
    reveal_strlit("7");
    assert(is_ascii_chars("7"@));
    assert(lowercase("7"@) =~= seq!['7']);
    assert(is_ascii_chars(seq!['7']));
    assert(lowercase(seq!['7']) =~= seq!['7']);
    assert(seq!['7'][0] != seq!['a'][0]);
    assert(seq!['7'][0] != seq!['b'][0]);
    assert(seq!['7'][0] != seq!['c'][0]);
    assert(seq!['7'][0] != seq!['d'][0]);
    assert(seq!['7'][0] != seq!['e'][0]);
    assert(seq!['7'][0] != seq!['f'][0]);
    assert(seq!['7'][0] != seq!['g'][0]);
    assert(seq!['7'][0] != seq!['h'][0]);
    assert(seq!['7'][0] != seq!['i'][0]);
    assert(seq!['7'][0] != seq!['j'][0]);
    assert(seq!['7'][0] != seq!['k'][0]);
    assert(seq!['7'][0] != seq!['l'][0]);
    assert(seq!['7'][0] != seq!['m'][0]);
    assert(seq!['7'][0] != seq!['n'][0]);
    assert(seq!['7'][0] != seq!['o'][0]);
    assert(seq!['7'][0] != seq!['p'][0]);
    assert(seq!['7'][0] != seq!['q'][0]);
    assert(seq!['7'][0] != seq!['r'][0]);
    assert(seq!['7'][0] != seq!['s'][0]);
    assert(seq!['7'][0] != seq!['t'][0]);
    assert(seq!['7'][0] != seq!['u'][0]);
    assert(seq!['7'][0] != seq!['v'][0]);
    assert(seq!['7'][0] != seq!['w'][0]);
    assert(seq!['7'][0] != seq!['x'][0]);
    assert(seq!['7'][0] != seq!['y'][0]);
    assert(seq!['7'][0] != seq!['z'][0]);
    assert(seq!['7'][0] != seq!['0'][0]);
    assert(seq!['7'][0] != seq!['1'][0]);
    assert(seq!['7'][0] != seq!['2'][0]);
    assert(seq!['7'][0] != seq!['3'][0]);
    assert(seq!['7'][0] != seq!['4'][0]);
    assert(seq!['7'][0] != seq!['5'][0]);
    assert(seq!['7'][0] != seq!['6'][0]);
    assert(seq!['7'][0] != seq!['8'][0]);
    assert(seq!['7'][0] != seq!['9'][0]);
    lemma_lookup_parts(seq!['7']);
    lemma_part0(seq!['7']);
    lemma_part1(seq!['7']);
    lemma_part2(seq!['7']);
    lemma_part3(seq!['7']);
    lemma_part4(seq!['7']);
    lemma_part5(seq!['7']);
    lemma_part6(seq!['7']);
    lemma_part7(seq!['7']);
    lemma_part8(seq!['7']);
}

proof fn lemma_resolves_num8()
    ensures
        key_of_name("8"@) == Some(Key::Num8),
        is_ascii_chars("8"@),
        key_of_name(lowercase("8"@)) == Some(Key::Num8),
        forall|i: int| 0 <= i < "8"@.len() ==> "8"@[i] != '+',
        !bracketed("8"@),
{
    reveal_strlit("8");
    assert(is_ascii_chars("8"@));
    assert(lowercase("8"@) =~= seq!['8']);
    assert(is_ascii_chars(seq!['8']));
    assert(lowercase(seq!['8']) =~= seq!['8']);
    assert(seq!['8'][0] != seq!['a'][0]);
    assert(seq!['8'][0] != seq!['b'][0]);
    assert(seq!['8'][0] != seq!['c'][0]);
    assert(seq!['8'][0] != seq!['d'][0]);
    assert(seq!['8'][0] != seq!['e'][0]);
    assert(seq!['8'][0] != seq!['f'][0]);
    assert(seq!['8'][0] != seq!['g'][0]);
    assert(seq!['8'][0] != seq!['h'][0]);
    assert(seq!['8'][0] != seq!['i'][0]);
    assert(seq!['8'][0] != seq!['j'][0]);
    assert(seq!['8'][0] != seq!['k'][0]);
    assert(seq!['8'][0] != seq!['l'][0]);
    assert(seq!['8'][0] != seq!['m'][0]);
    assert(seq!['8'][0] != seq!['n'][0]);
    assert(seq!['8'][0] != seq!['o'][0]);
    assert(seq!['8'][0] != seq!['p'][0]);
    assert(seq!['8'][0] != seq!['q'][0]);
    assert(seq!['8'][0] != seq!['r'][0]);
    assert(seq!['8'][0] != seq!['s'][0]);
    assert(seq!['8'][0] != seq!['t'][0]);
    assert(seq!['8'][0] != seq!['u'][0]);
    assert(seq!['8'][0] != seq!['v'][0]);
    assert(seq!['8'][0] != seq!['w'][0]);
    assert(seq!['8'][0] != seq!['x'][0]);
    assert(seq!['8'][0] != seq!['y'][0]);
    assert(seq!['8'][0] != seq!['z'][0]);
    assert(seq!['8'][0] != seq!['0'][0]);
    assert(seq!['8'][0] != seq!['1'][0]);
    assert(seq!['8'][0] != seq!['2'][0]);
    assert(seq!['8'][0] != seq!['3'][0]);
    assert(seq!['8'][0] != seq!['4'][0]);
    assert(seq!['8'][0] != seq!['5'][0]);
    assert(seq!['8'][0] != seq!['6'][0]);
    assert(seq!['8'][0] != seq!['7'][0]);
    assert(seq!['8'][0] != seq!['9'][0]);
    lemma_lookup_parts(seq!['8']);
    lemma_part0(seq!['8']);
    lemma_part1(seq!['8']);
    lemma_part2(seq!['8']);
    lemma_part3(seq!['8']);
    lemma_part4(seq!['8']);
    lemma_part5(seq!['8']);
    lemma_part6(seq!['8']);
    lemma_part7(seq!['8']);
    lemma_part8(seq!['8']);
}

proof fn lemma_resolves_num9()
    ensures
        key_of_name("9"@) == Some(Key::Num9),
        is_ascii_chars("9"@),
        key_of_name(lowercase("9"@)) == Some(Key::Num9),
        forall|i: int| 0 <= i < "9"@.len() ==> "9"@[i] != '+',
        !bracketed("9"@),
{
    reveal_strlit("9");
    assert(is_ascii_chars("9"@));
    assert(lowercase("9"@) =~= seq!['9']);
    assert(is_ascii_chars(seq!['9']));
    assert(lowercase(seq!['9']) =~= seq!['9']);
    assert(seq!['9'][0] != seq!['a'][0]);
    assert(seq!['9'][0] != seq!['b'][0]);
    assert(seq!['9'][0] != seq!['c'][0]);
    assert(seq!['9'][0] != seq!['d'][0]);
    assert(seq!['9'][0] != seq!['e'][0]);
    assert(seq!['9'][0] != seq!['f'][0]);
    assert(seq!['9'][0] != seq!['g'][0]);
    assert(seq!['9'][0] != seq!['h'][0]);
    assert(seq!['9'][0] != seq!['i'][0]);
    assert(seq!['9'][0] != seq!['j'][0]);
    assert(seq!['9'][0] != seq!['k'][0]);
    assert(seq!['9'][0] != seq!['l'][0]);
    assert(seq!['9'][0] != seq!['m'][0]);
    assert(seq!['9'][0] != seq!['n'][0]);
    assert(seq!['9'][0] != seq!['o'][0]);
    assert(seq!['9'][0] != seq!['p'][0]);
    assert(seq!['9'][0] != seq!['q'][0]);
    assert(seq!['9'][0] != seq!['r'][0]);
    assert(seq!['9'][0] != seq!['s'][0]);
    assert(seq!['9'][0] != seq!['t'][0]);
    assert(seq!['9'][0] != seq!['u'][0]);
    assert(seq!['9'][0] != seq!['v'][0]);
    assert(seq!['9'][0] != seq!['w'][0]);
    assert(seq!['9'][0] != seq!['x'][0]);
    assert(seq!['9'][0] != seq!['y'][0]);
    assert(seq!['9'][0] != seq!['z'][0]);
    assert(seq!['9'][0] != seq!['0'][0]);
    assert(seq!['9'][0] != seq!['1'][0]);
    assert(seq!['9'][0] != seq!['2'][0]);
    assert(seq!['9'][0] != seq!['3'][0]);
    assert(seq!['9'][0] != seq!['4'][0]);
    assert(seq!['9'][0] != seq!['5'][0]);
    assert(seq!['9'][0] != seq!['6'][0]);
    assert(seq!['9'][0] != seq!['7'][0]);
    assert(seq!['9'][0] != seq!['8'][0]);
    lemma_lookup_parts(seq!['9']);
    lemma_part0(seq!['9']);
    lemma_part1(seq!['9']);
    lemma_part2(seq!['9']);
    lemma_part3(seq!['9']);
    lemma_part4(seq!['9']);
    lemma_part5(seq!['9']);
    lemma_part6(seq!['9']);
    lemma_part7(seq!['9']);
    lemma_part8(seq!['9']);
}

/// Every key's name, as it is saved in the bindings, is ASCII and is read back as that
/// key, also when written in small letters; no name holds a `+` or has the `[c]` form of
/// a typed character.
pub proof fn law_key_names_resolve(k: Key)
    ensures
        key_name(k) matches Some(n) ==> key_of_name(n) == Some(k) && is_ascii_chars(n)
            && key_of_name(lowercase(n)) == Some(k) && (forall|i: int| 0 <= i < n.len() ==> n[i] != '+')
            && !bracketed(n),
{
    match k {
        Key::ArrowLeft => lemma_resolves_arrow_left(),
        Key::ArrowRight => lemma_resolves_arrow_right(),
        Key::ArrowUp => lemma_resolves_arrow_up(),
        Key::ArrowDown => lemma_resolves_arrow_down(),
        Key::Enter => lemma_resolves_enter(),
        Key::Escape => lemma_resolves_escape(),
        Key::Space => lemma_resolves_space(),
        Key::Backspace => lemma_resolves_backspace(),
        Key::Tab => lemma_resolves_tab(),
        Key::Home => lemma_resolves_home(),
        Key::End => lemma_resolves_end(),
        Key::PageUp => lemma_resolves_page_up(),
        Key::PageDown => lemma_resolves_page_down(),
        Key::Plus => lemma_resolves_plus(),
        Key::Equals => lemma_resolves_equals(),
        Key::Minus => lemma_resolves_minus(),
        Key::F1 => lemma_resolves_f1(),
        Key::F2 => lemma_resolves_f2(),
        Key::F3 => lemma_resolves_f3(),
        Key::F4 => lemma_resolves_f4(),
        Key::F5 => lemma_resolves_f5(),
        Key::F6 => lemma_resolves_f6(),
        Key::F7 => lemma_resolves_f7(),
        Key::F8 => lemma_resolves_f8(),
        Key::F9 => lemma_resolves_f9(),
        Key::F10 => lemma_resolves_f10(),
        Key::F11 => lemma_resolves_f11(),
        Key::F12 => lemma_resolves_f12(),
        Key::A => lemma_resolves_a(),
        Key::B => lemma_resolves_b(),
        Key::C => lemma_resolves_c(),
        Key::D => lemma_resolves_d(),
        Key::E => lemma_resolves_e(),
        Key::F => lemma_resolves_f(),
        Key::G => lemma_resolves_g(),
        Key::H => lemma_resolves_h(),
        Key::I => lemma_resolves_i(),
        Key::J => lemma_resolves_j(),
        Key::K => lemma_resolves_k(),
        Key::L => lemma_resolves_l(),
        Key::M => lemma_resolves_m(),
        Key::N => lemma_resolves_n(),
        Key::O => lemma_resolves_o(),
        Key::P => lemma_resolves_p(),
        Key::Q => lemma_resolves_q(),
        Key::R => lemma_resolves_r(),
        Key::S => lemma_resolves_s(),
        Key::T => lemma_resolves_t(),
        Key::U => lemma_resolves_u(),
        Key::V => lemma_resolves_v(),
        Key::W => lemma_resolves_w(),
        Key::X => lemma_resolves_x(),
        Key::Y => lemma_resolves_y(),
        Key::Z => lemma_resolves_z(),
        Key::Num0 => lemma_resolves_num0(),
        Key::Num1 => lemma_resolves_num1(),
        Key::Num2 => lemma_resolves_num2(),
        Key::Num3 => lemma_resolves_num3(),
        Key::Num4 => lemma_resolves_num4(),
        Key::Num5 => lemma_resolves_num5(),
        Key::Num6 => lemma_resolves_num6(),
        Key::Num7 => lemma_resolves_num7(),
        Key::Num8 => lemma_resolves_num8(),
        Key::Num9 => lemma_resolves_num9(),
        Key::Other => {},
    }
}

/// A key combination captured in the key configuration (a named key pressed with
/// some modifiers) triggers exactly when that key goes down with the same modifiers
/// held, whatever the key.
pub proof fn law_captured_key_triggers(input: InputSnapshot, m: Modifiers, k: Key)
    requires
        key_name(k) is Some,
    ensures
        binding_pressed(input, combo_text(m, key_name(k)->0)) == (key_went_down(input.events@, k)
            && input.modifiers == m),
{
    law_key_names_resolve(k);
    law_captured_binding_triggers(input, m, key_name(k)->0, k);
}

} // verus!
