//! Text as this crate needs it: prefixes, decimal numerals, joined paths.

use vstd::prelude::*;
use vstd::std_specs::iter::IteratorSpec;

verus! {

/// `text` begins with `prefix`.
pub fn starts_with(text: &str, prefix: &str) -> (found: bool)
    ensures
        found == prefix@.is_prefix_of(text@),
{
    broadcast use vstd::string::group_string_axioms;

    let mut rest = text.chars();
    let mut wanted = prefix.chars();
    let ghost mut seen: int = 0;
    loop
        invariant
            0 <= seen <= text@.len(),
            seen <= prefix@.len(),
            rest.remaining() == text@.skip(seen),
            wanted.remaining() == prefix@.skip(seen),
            text@.take(seen) == prefix@.take(seen),
        decreases prefix@.len() - seen,
    {
        match wanted.next() {
            None => {
                assert(prefix@.take(seen) == prefix@);
                assert(text@.take(seen) == text@.subrange(0, prefix@.len() as int));
                return true;
            },
            Some(expected) => {
                match rest.next() {
                    None => {
                        return false;
                    },
                    Some(actual) => {
                        if actual != expected {
                            assert(text@[seen] != prefix@[seen]);
                            return false;
                        }
                        assert(text@.take(seen + 1) == text@.take(seen).push(text@[seen]));
                        assert(prefix@.take(seen + 1) == prefix@.take(seen).push(prefix@[seen]));
                        assert(text@.skip(seen).drop_first() == text@.skip(seen + 1));
                        assert(prefix@.skip(seen).drop_first() == prefix@.skip(seen + 1));
                        proof {
                            seen = seen + 1;
                        }
                    },
                }
            },
        }
    }
}

/// The character that writes the digit `value`; `'9'` for all above 8.
pub open spec fn digit(value: nat) -> char {
    if value == 0 {
        '0'
    } else if value == 1 {
        '1'
    } else if value == 2 {
        '2'
    } else if value == 3 {
        '3'
    } else if value == 4 {
        '4'
    } else if value == 5 {
        '5'
    } else if value == 6 {
        '6'
    } else if value == 7 {
        '7'
    } else if value == 8 {
        '8'
    } else {
        '9'
    }
}

/// `number` written in base ten, without sign or leading zeros.
pub open spec fn decimal(number: nat) -> Seq<char>
    decreases number,
{
    if number < 10 {
        seq![digit(number)]
    } else {
        decimal(number / 10).push(digit(number % 10))
    }
}

fn digit_text(value: u64) -> (text: &'static str)
    requires
        value < 10,
    ensures
        text@ == seq![digit(value as nat)],
{
    proof {
        reveal_strlit("0");
        reveal_strlit("1");
        reveal_strlit("2");
        reveal_strlit("3");
        reveal_strlit("4");
        reveal_strlit("5");
        reveal_strlit("6");
        reveal_strlit("7");
        reveal_strlit("8");
        reveal_strlit("9");
    }
    let text = if value == 0 {
        "0"
    } else if value == 1 {
        "1"
    } else if value == 2 {
        "2"
    } else if value == 3 {
        "3"
    } else if value == 4 {
        "4"
    } else if value == 5 {
        "5"
    } else if value == 6 {
        "6"
    } else if value == 7 {
        "7"
    } else if value == 8 {
        "8"
    } else {
        "9"
    };
    assert(text@ =~= seq![digit(value as nat)]);
    text
}

/// Writes `number` in base ten.
pub fn to_decimal(number: u64) -> (text: String)
    ensures
        text@ == decimal(number as nat),
    decreases number,
{
    let last = digit_text(number % 10);
    if number < 10 {
        last.to_owned()
    } else {
        let mut text = to_decimal(number / 10);
        text.append(last);
        assert(text@ =~= decimal((number / 10) as nat).push(digit((number % 10) as nat)));
        text
    }
}

/// A decimal numeral is never empty and holds digits only.
pub proof fn lemma_decimal_is_digits(number: nat)
    ensures
        decimal(number).len() >= 1,
        forall|i: int|
            0 <= i < decimal(number).len() ==> '0' <= #[trigger] decimal(number)[i] <= '9',
    decreases number,
{
    if number >= 10 {
        lemma_decimal_is_digits(number / 10);
    }
}

/// The path of `rest` as seen from the directory `base`, with `/` between
/// the parts. A `rest` that begins at the root stands for itself.
pub open spec fn joined(base: Seq<char>, rest: Seq<char>) -> Seq<char> {
    if rest.len() > 0 && rest[0] == '/' {
        rest
    } else if base.len() == 0 || base.last() == '/' {
        base + rest
    } else {
        base + seq!['/'] + rest
    }
}

/// Joins two parts of a path, as `std::path::Path::join` does where `/`
/// separates the parts.
pub fn join_path(base: &str, rest: &str) -> (path: String)
    ensures
        path@ == joined(base@, rest@),
{
    proof {
        reveal_strlit("/");
    }
    if rest.unicode_len() > 0 && rest.get_char(0) == '/' {
        return rest.to_owned();
    }
    let length = base.unicode_len();
    let mut path = base.to_owned();
    if length > 0 && base.get_char(length - 1) != '/' {
        path.append("/");
        assert(path@ =~= base@ + seq!['/']);
    }
    path.append(rest);
    path
}

/// `first` followed by `second`.
pub fn followed_by(first: &str, second: &str) -> (text: String)
    ensures
        text@ == first@ + second@,
{
    let mut text = first.to_owned();
    text.append(second);
    text
}

} // verus!
