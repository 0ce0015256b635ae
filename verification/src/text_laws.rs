//! What holds of texts, printed forms and paths for all of them.

use crate::path::{components, names, pieces, DOT, SLASH};
use crate::text::{
    after_prefix, decimal, number_option, quoted, quoted_items, quoted_list, quoted_option,
    signed_decimal, text_or_none, trimmed, trimmed_end, trimmed_start, truth, white_space,
};
use vstd::prelude::*;

verus! {

// ---- Trimming ----

/// White space is the tab, the line breaks, the blank, and the wide blanks and breaks of Unicode;
/// nothing else is.
pub proof fn white_space_is_blanks_and_breaks(c: char)
    ensures
        white_space(c) <==> (c == '\t' || c == '\n' || c == '\u{b}' || c == '\u{c}' || c == '\r'
            || c == ' ' || c == '\u{85}' || c == '\u{a0}' || c == '\u{1680}' || c == '\u{2000}'
            || c == '\u{2001}' || c == '\u{2002}' || c == '\u{2003}' || c == '\u{2004}' || c
            == '\u{2005}' || c == '\u{2006}' || c == '\u{2007}' || c == '\u{2008}' || c
            == '\u{2009}' || c == '\u{200a}' || c == '\u{2028}' || c == '\u{2029}' || c
            == '\u{202f}' || c == '\u{205f}' || c == '\u{3000}'),
{
}

/// Nothing but white space.
pub open spec fn blank(s: Seq<char>) -> bool {
    forall|i: int| 0 <= i < s.len() ==> white_space(#[trigger] s[i])
}

/// Tells whether a text neither begins nor ends with white space.
pub open spec fn tight(s: Seq<char>) -> bool {
    s.len() > 0 ==> !white_space(s[0]) && !white_space(s[s.len() - 1])
}

proof fn lemma_start_skips(left: Seq<char>, s: Seq<char>)
    requires
        blank(left),
    ensures
        trimmed_start(left + s) == trimmed_start(s),
    decreases left.len(),
{
    if left.len() == 0 {
        assert(left + s =~= s);
    } else {
        let rest = left.drop_first();
        assert(white_space(left[0]));
        assert forall|i: int| 0 <= i < rest.len() implies white_space(#[trigger] rest[i]) by {
            assert(white_space(left[i + 1]));
        }
        assert((left + s).first() == left[0]);
        assert((left + s).drop_first() =~= rest + s);
        lemma_start_skips(rest, s);
    }
}

proof fn lemma_end_skips(s: Seq<char>, right: Seq<char>)
    requires
        blank(right),
    ensures
        trimmed_end(s + right) == trimmed_end(s),
    decreases right.len(),
{
    if right.len() == 0 {
        assert(s + right =~= s);
    } else {
        let rest = right.drop_last();
        assert(white_space(right[right.len() - 1]));
        assert forall|i: int| 0 <= i < rest.len() implies white_space(#[trigger] rest[i]) by {
            assert(white_space(right[i]));
        }
        assert((s + right).last() == right[right.len() - 1]);
        assert((s + right).drop_last() =~= s + rest);
        lemma_end_skips(s, rest);
    }
}

/// Trimming takes away the white space around a text, all of it, and leaves the text whole.
pub proof fn trimming_undoes_padding(left: Seq<char>, core: Seq<char>, right: Seq<char>)
    requires
        blank(left),
        blank(right),
        tight(core),
    ensures
        trimmed(left + core + right) == core,
        core.len() > 0 ==> trimmed_start(left + core + right) == core + right,
{
    assert(left + core + right =~= left + (core + right));
    lemma_start_skips(left, core + right);
    if core.len() == 0 {
        assert(core + right =~= right + core);
        lemma_start_skips(right, core);
        assert(trimmed_start(core) == core);
        assert(trimmed_end(core) == core);
    } else {
        assert((core + right).first() == core[0]);
        assert(trimmed_start(core + right) == core + right);
        lemma_end_skips(core, right);
        assert(core.last() == core[core.len() - 1]);
        assert(trimmed_end(core) == core);
    }
}

/// A text trims to nothing if and only if it is nothing but white space.
pub proof fn only_blank_text_trims_to_nothing(s: Seq<char>)
    ensures
        trimmed(s).len() == 0 <==> blank(s),
        trimmed_start(s).len() == 0 <==> blank(s),
    decreases s.len(),
{
    if blank(s) {
        let none = Seq::<char>::empty();
        assert(s + none =~= s);
        lemma_start_skips(s, none);
    } else if white_space(s.first()) {
        let rest = s.drop_first();
        assert(!blank(rest)) by {
            let i = choose|i: int| 0 <= i < s.len() && !white_space(#[trigger] s[i]);
            assert(rest[i - 1] == s[i]);
        }
        only_blank_text_trims_to_nothing(rest);
    } else {
        lemma_end_keeps_head(s);
    }
}

proof fn lemma_end_keeps_head(s: Seq<char>)
    requires
        s.len() > 0,
        !white_space(s.first()),
    ensures
        trimmed_end(s).len() > 0,
    decreases s.len(),
{
    if white_space(s.last()) {
        let front = s.drop_last();
        assert(front.len() > 0);
        assert(front.first() == s.first());
        lemma_end_keeps_head(front);
    }
}

/// What is found after a prefix is what was put there, and it is found only behind the prefix.
pub proof fn prefixes_come_off(prefix: Seq<char>, rest: Seq<char>, s: Seq<char>)
    ensures
        after_prefix(prefix + rest, prefix) == Some(rest),
        after_prefix(s, prefix) matches Some(found) ==> s == prefix + found,
        after_prefix(s, prefix) is None ==> s.len() < prefix.len() || exists|i: int|
            0 <= i < prefix.len() && #[trigger] s[i] != prefix[i],
{
    let whole = prefix + rest;
    assert(whole.subrange(0, prefix.len() as int) =~= prefix);
    assert(whole.skip(prefix.len() as int) =~= rest);
    if let Some(found) = after_prefix(s, prefix) {
        assert(s =~= prefix + found) by {
            assert(prefix =~= s.subrange(0, prefix.len() as int));
            assert forall|i: int| 0 <= i < s.len() implies s[i] == (prefix + found)[i] by {
                if i < prefix.len() {
                    assert(prefix[i] == s.subrange(0, prefix.len() as int)[i]);
                }
            }
        }
    } else if s.len() >= prefix.len() {
        if forall|i: int| 0 <= i < prefix.len() ==> #[trigger] s[i] == prefix[i] {
            assert(prefix =~= s.subrange(0, prefix.len() as int));
        }
    }
}

// ---- Numbers ----

/// The number that a decimal digit stands for.
pub open spec fn digit_value(c: char) -> int {
    c as int - '0' as int
}

/// The number that a row of decimal digits stands for.
pub open spec fn value(s: Seq<char>) -> int
    decreases s.len(),
{
    if s.len() == 0 {
        0
    } else {
        10 * value(s.drop_last()) + digit_value(s.last())
    }
}

/// A number is written with decimal digits that stand for it, without a leading zero.
pub proof fn decimals_stand_for_their_number(n: nat)
    ensures
        value(decimal(n)) == n,
        decimal(n).len() > 0,
        forall|i: int| 0 <= i < decimal(n).len() ==> '0' <= #[trigger] decimal(n)[i] <= '9',
        decimal(n)[0] == '0' ==> n == 0 && decimal(n).len() == 1,
    decreases n,
{
    let s = decimal(n);
    if n < 10 {
        assert(s.drop_last() =~= Seq::<char>::empty());
        assert(value(s.drop_last()) == 0);
        assert(digit_value(s.last()) == n);
    } else {
        decimals_stand_for_their_number(n / 10);
        assert(s.drop_last() =~= decimal(n / 10));
        assert(digit_value(s.last()) == n % 10);
        assert(s[0] == decimal(n / 10)[0]);
        assert forall|i: int| 0 <= i < s.len() implies '0' <= #[trigger] s[i] <= '9' by {
            if i < s.len() - 1 {
                assert(s[i] == decimal(n / 10)[i]);
            }
        }
    }
}

/// Different numbers are written differently.
pub proof fn decimals_tell_numbers_apart(m: nat, n: nat)
    ensures
        decimal(m) == decimal(n) ==> m == n,
{
    decimals_stand_for_their_number(m);
    decimals_stand_for_their_number(n);
}

/// A negative number is written as a minus sign and its size; any other one without a sign.
pub proof fn signs_are_written(i: int)
    ensures
        i < 0 ==> signed_decimal(i) == seq!['-'] + decimal((-i) as nat),
        i >= 0 ==> signed_decimal(i) == decimal(i as nat),
{
    reveal_strlit("-");
    assert("-"@ =~= seq!['-']);
}

// ---- Printed forms ----

/// A truth value is printed as the word for it.
pub proof fn truths_are_printed(b: bool)
    ensures
        truth(true) == "true"@,
        truth(false) == "false"@,
        truth(b) != truth(!b),
{
    reveal_strlit("true");
    reveal_strlit("false");
    assert("true"@.len() != "false"@.len());
}

/// A list is printed in brackets with every item quoted, in order and with commas between.
pub proof fn lists_are_printed_item_by_item(items: Seq<Seq<char>>, last: Seq<char>)
    ensures
        quoted_list(Seq::empty()) == "[]"@,
        quoted_list(seq![last]) == "["@ + quoted(last) + "]"@,
        items.len() > 0 ==> quoted_list(items.push(last)) == quoted_list(items).drop_last() + ", "@
            + quoted(last) + "]"@,
{
    reveal_strlit("[");
    reveal_strlit("]");
    reveal_strlit("[]");
    assert(quoted_list(Seq::empty()) =~= "[]"@);
    assert(items.push(last).drop_last() =~= items);
    assert(quoted_list(items).drop_last() =~= "["@ + quoted_items(items));
    if items.len() > 0 {
        assert(quoted_list(items.push(last)) =~= quoted_list(items).drop_last() + ", "@ + quoted(
            last,
        ) + "]"@);
    }
}

/// What may be missing is printed as what it is, or as missing.
pub proof fn options_are_printed(text: Seq<char>, number: i32)
    ensures
        quoted_option(None) == "None"@,
        quoted_option(Some(text)) == "Some("@ + quoted(text) + ")"@,
        number_option(None) == "None"@,
        number >= 0 ==> number_option(Some(number)) == "Some("@ + decimal(number as nat) + ")"@,
        number < 0 ==> number_option(Some(number)) == "Some(-"@ + decimal((-number) as nat) + ")"@,
        text_or_none(None) == "<none>"@,
        text_or_none(Some(text)) == text,
{
    reveal_strlit("-");
    reveal_strlit("Some(");
    reveal_strlit("Some(-");
    if number < 0 {
        assert(number_option(Some(number)) =~= "Some(-"@ + decimal((-number) as nat) + ")"@);
    }
}

// ---- Paths ----

/// A name for a component: it has no slash in it.
pub open spec fn slashless(name: Seq<u8>) -> bool {
    forall|i: int| 0 <= i < name.len() ==> #[trigger] name[i] != 0x2f
}

proof fn lemma_pieces_of_name(name: Seq<u8>)
    requires
        slashless(name),
    ensures
        pieces(name) == seq![name],
    decreases name.len(),
{
    if name.len() == 0 {
        assert(name =~= Seq::<u8>::empty());
    } else {
        let front = name.drop_last();
        assert(name[name.len() - 1] != 0x2f);
        assert forall|i: int| 0 <= i < front.len() implies #[trigger] front[i] != 0x2f by {
            assert(name[i] != 0x2f);
        }
        lemma_pieces_of_name(front);
        assert(front.push(name.last()) =~= name);
        assert(pieces(name) =~= seq![name]);
    }
}

proof fn lemma_pieces_joined(path: Seq<u8>, name: Seq<u8>)
    requires
        slashless(name),
    ensures
        pieces(path.push(0x2f) + name) == pieces(path).push(name),
    decreases name.len(),
{
    let whole = path.push(0x2f) + name;
    if name.len() == 0 {
        assert(whole =~= path.push(0x2f));
        assert(whole.drop_last() =~= path);
        assert(name =~= Seq::<u8>::empty());
        assert(pieces(whole) =~= pieces(path).push(name));
    } else {
        let front = name.drop_last();
        assert(name[name.len() - 1] != 0x2f);
        assert forall|i: int| 0 <= i < front.len() implies #[trigger] front[i] != 0x2f by {
            assert(name[i] != 0x2f);
        }
        lemma_pieces_joined(path, front);
        assert(whole.last() == name.last());
        assert(whole.drop_last() =~= path.push(0x2f) + front);
        assert(front.push(name.last()) =~= name);
        assert(pieces(path).push(front).drop_last() =~= pieces(path));
        assert(pieces(whole) =~= pieces(path).push(name));
    }
}

proof fn lemma_pieces_len(path: Seq<u8>)
    ensures
        pieces(path).len() > 0,
    decreases path.len(),
{
    if path.len() > 0 {
        lemma_pieces_len(path.drop_last());
    }
}

/// A name by itself is the one component of its path, and the empty path has none.
pub proof fn names_are_their_own_component(name: Seq<u8>)
    requires
        slashless(name),
    ensures
        name.len() > 0 ==> components(name) == seq![name],
        name.len() == 0 ==> components(name) == Seq::<Seq<u8>>::empty(),
{
    lemma_pieces_of_name(name);
    reveal_with_fuel(names, 2);
    assert(seq![name].drop_last() =~= Seq::<Seq<u8>>::empty());
    if name.len() > 0 {
        assert(name[0] != 0x2f);
        assert(components(name) =~= seq![name]);
    } else {
        assert(components(name) =~= Seq::<Seq<u8>>::empty());
    }
}

/// A name put behind a path and a slash is one more component, unless it is empty or a dot: then
/// the path keeps its components. A slash at the very front is a component of its own.
pub proof fn joined_names_are_components(path: Seq<u8>, name: Seq<u8>)
    requires
        slashless(name),
    ensures
        ({
            let base = if path.len() == 0 {
                seq![seq![0x2fu8]]
            } else {
                components(path)
            };
            components(path.push(0x2f) + name) == if name.len() == 0 || name == seq![0x2eu8] {
                base
            } else {
                base.push(name)
            }
        }),
{
    let whole = path.push(0x2f) + name;
    lemma_pieces_joined(path, name);
    lemma_pieces_len(path);
    let all = pieces(whole);
    assert(all.drop_last() =~= pieces(path));
    assert(all.last() == name);
    if path.len() == 0 {
        assert(whole.first() == 0x2f);
        assert(pieces(path) =~= seq![Seq::<u8>::empty()]);
        reveal_with_fuel(names, 3);
        assert(names(pieces(path)) =~= Seq::<Seq<u8>>::empty());
    } else {
        assert(whole.first() == path.first());
    }
    let base = if path.len() == 0 {
        seq![seq![0x2fu8]]
    } else {
        components(path)
    };
    assert(seq![DOT] =~= seq![0x2eu8]);
    assert(seq![SLASH] =~= seq![0x2fu8]);
    if name.len() == 0 || name == seq![0x2eu8] {
        assert(components(whole) =~= base);
    } else {
        assert(components(whole) =~= base.push(name));
    }
}

} // verus!
