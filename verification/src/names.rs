//! Checkpoint names: the name of a step, numbered from its second use on.

use vstd::prelude::*;
use vstd::string::*;

verus! {

/// The character of a decimal digit.
pub open spec fn digit(d: nat) -> char {
    ('0' as int + d) as char
}

/// A number in decimal, without leading zeros.
pub open spec fn decimal(n: nat) -> Seq<char>
    decreases n,
{
    if n < 10 {
        seq![digit(n)]
    } else {
        decimal(n / 10).push(digit(n % 10))
    }
}

/// The checkpoint name of the `nth` use of a step: the step's own name the first time, then
/// the name, `#` and the number.
pub open spec fn checkpoint_name(step: Seq<char>, nth: nat) -> Seq<char> {
    if nth <= 1 {
        step
    } else {
        step + seq!['#'] + decimal(nth)
    }
}

/// The text of a decimal digit.
fn digit_text(d: usize) -> (r: &'static str)
    requires
        d < 10,
    ensures
        r@ == seq![digit(d as nat)],
{
    proof {
        reveal_strlit("0");
        reveal_strlit("1");
        reveal_strlit("2");
        reveal_strlit("3");
        reveal_strlit("4");
        reveal_strlit("5");
        reveal_strlit("6");
        reveal_strlit("7");
        reveal_strlit("8");
        reveal_strlit("9");
    }
    match d {
        0 => "0",
        1 => "1",
        2 => "2",
        3 => "3",
        4 => "4",
        5 => "5",
        6 => "6",
        7 => "7",
        8 => "8",
        _ => "9",
    }
}

/// Writes a number in decimal at the end of a text.
pub fn push_decimal(text: &mut String, n: usize)
    ensures
        final(text)@ == old(text)@ + decimal(n as nat),
    decreases n,
{
    if n >= 10 {
        push_decimal(text, n / 10);
    }
    text.append(digit_text(n % 10));
}

/// The checkpoint name of the `nth` use of a step.
pub fn make_checkpoint_name(step: &str, nth: usize) -> (r: String)
    ensures
        r@ == checkpoint_name(step@, nth as nat),
{
    let mut name = String::from(step);
    if nth > 1 {
        proof {
            reveal_strlit("#");
        }
        name.append("#");
        push_decimal(&mut name, nth);
        assert(name@ == step@ + seq!['#'] + decimal(nth as nat));
    }
    name
}

/// A decimal number holds digits only, and at least one.
proof fn lemma_decimal_digits(n: nat)
    ensures
        decimal(n).len() >= 1,
        forall|i: int|
            0 <= i < decimal(n).len() ==> '0' <= #[trigger] decimal(n)[i] && decimal(n)[i] <= '9',
    decreases n,
{
    if n >= 10 {
        lemma_decimal_digits(n / 10);
    }
}

/// Different numbers are written differently.
proof fn lemma_decimal_injective(m: nat, n: nat)
    requires
        decimal(m) == decimal(n),
    ensures
        m == n,
    decreases m,
{
    lemma_decimal_digits(m / 10);
    lemma_decimal_digits(n / 10);
    assert(decimal(m).last() == digit(m % 10));
    assert(decimal(n).last() == digit(n % 10));
    if m >= 10 && n >= 10 {
        assert(decimal(m).drop_last() == decimal(m / 10));
        assert(decimal(n).drop_last() == decimal(n / 10));
        lemma_decimal_injective(m / 10, n / 10);
    }
}

/// Uses of steps do not share a checkpoint: two uses with one checkpoint name are the same
/// use of the same step. A step whose own name is already the numbered name of another
/// step's use shares that use's checkpoint, and is left out.
pub proof fn law_checkpoint_names_distinct(
    step: Seq<char>,
    nth: nat,
    other_step: Seq<char>,
    other_nth: nat,
)
    requires
        nth >= 1,
        other_nth >= 1,
        !(nth == 1 && other_nth >= 2 && step == checkpoint_name(other_step, other_nth)),
        !(other_nth == 1 && nth >= 2 && other_step == checkpoint_name(step, nth)),
        checkpoint_name(step, nth) == checkpoint_name(other_step, other_nth),
    ensures
        step == other_step,
        nth == other_nth,
{
    if nth >= 2 && other_nth >= 2 {
        let name = checkpoint_name(step, nth);
        let other_name = checkpoint_name(other_step, other_nth);
        let number = decimal(nth);
        let other_number = decimal(other_nth);
        lemma_decimal_digits(nth);
        lemma_decimal_digits(other_nth);
        assert(name.len() == step.len() + 1 + number.len());
        assert(other_name.len() == other_step.len() + 1 + other_number.len());
        assert(name[step.len() as int] == '#');
        assert(other_name[other_step.len() as int] == '#');
        if step.len() < other_step.len() {
            assert(name[other_step.len() as int] == number[other_step.len() - step.len() - 1]);
        }
        if other_step.len() < step.len() {
            assert(other_name[step.len() as int] == other_number[step.len() - other_step.len()
                - 1]);
        }
        assert(step == name.take(step.len() as int));
        assert(other_step == other_name.take(other_step.len() as int));
        assert(number == name.skip(step.len() as int + 1));
        assert(other_number == other_name.skip(other_step.len() as int + 1));
        lemma_decimal_injective(nth, other_nth);
    }
}

} // verus!
