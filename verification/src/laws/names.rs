//! What holds of numbers and checkpoint names as texts.

use crate::names::{checkpoint_name, decimal, digit, make_checkpoint_name, push_decimal};
use vstd::prelude::*;

verus! {

/// The number that decimal digits stand for.
pub open spec fn number_of(digits: Seq<char>) -> int
    decreases digits.len(),
{
    if digits.len() == 0 {
        0
    } else {
        10 * number_of(digits.drop_last()) + (digits.last() as int - '0' as int)
    }
}

/// Whether a text is a number as it is usually written: digits, of which the first is no zero
/// unless it is the only one.
pub open spec fn is_number(text: Seq<char>) -> bool {
    &&& text.len() >= 1
    &&& forall|i: int| 0 <= i < text.len() ==> '0' <= #[trigger] text[i] && text[i] <= '9'
    &&& text.len() > 1 ==> text[0] != '0'
}

/// Whether a text is the checkpoint name of the `nth` use of a step: the step's name for the
/// first; for a later one the step's name, then `#`, then the number.
pub open spec fn names_use(name: Seq<char>, step: Seq<char>, nth: int) -> bool {
    if nth == 1 {
        name == step
    } else {
        &&& name.len() > step.len() + 1
        &&& name.take(step.len() as int) == step
        &&& name[step.len() as int] == '#'
        &&& is_number(name.skip(step.len() + 1int))
        &&& number_of(name.skip(step.len() + 1int)) == nth
    }
}

/// A number that is written in decimal is read back.
pub proof fn law_numbers_are_read_back(n: nat)
    ensures
        is_number(decimal(n)),
        number_of(decimal(n)) == n,
        n > 0 ==> decimal(n)[0] != '0',
    decreases n,
{
    if n < 10 {
        assert(decimal(n) == seq![digit(n)]);
        assert(decimal(n).drop_last() == Seq::<char>::empty());
        assert(number_of(Seq::<char>::empty()) == 0);
        assert(decimal(n).last() == digit(n));
    } else {
        law_numbers_are_read_back(n / 10);
        assert(decimal(n) == decimal(n / 10).push(digit(n % 10)));
        assert(decimal(n).drop_last() == decimal(n / 10));
        assert(decimal(n).last() == digit(n % 10));
        assert(decimal(n)[0] == decimal(n / 10)[0]);
    }
}

/// A number is written in one way only: a text that is a number is how that number is written.
pub proof fn law_numbers_are_written_in_one_way(text: Seq<char>)
    requires
        is_number(text),
    ensures
        number_of(text) >= 0,
        text == decimal(number_of(text) as nat),
        text[0] != '0' ==> number_of(text) > 0,
    decreases text.len(),
{
    let front = text.drop_last();
    let last: int = text.last() as int - '0' as int;
    assert('0' <= text[text.len() - 1] && text[text.len() - 1] <= '9');
    assert(digit(last as nat) == text.last());
    if text.len() == 1 {
        assert(number_of(front) == 0);
        assert(text == seq![digit(last as nat)]);
    } else {
        assert(front[0] == text[0]);
        assert forall|i: int| 0 <= i < front.len() implies '0' <= #[trigger] front[i] && front[i]
            <= '9' by {
            assert(front[i] == text[i]);
        }
        law_numbers_are_written_in_one_way(front);
        let n: nat = number_of(text) as nat;
        assert(n / 10 == number_of(front));
        assert(n % 10 == last);
        assert(text == front.push(text.last()));
    }
}

/// A use of a step has one checkpoint name only.
pub proof fn law_use_has_one_name(name: Seq<char>, step: Seq<char>, nth: int)
    requires
        nth >= 1,
        names_use(name, step, nth),
    ensures
        name == checkpoint_name(step, nth as nat),
{
    if nth >= 2 {
        let number = name.skip(step.len() + 1int);
        law_numbers_are_written_in_one_way(number);
        assert(name == name.take(step.len() as int) + seq!['#'] + number);
    }
}

/// Checkpoint names number the uses of a step.
pub proof fn law_checkpoint_names_number_uses(step: Seq<char>, nth: nat)
    requires
        nth >= 1,
    ensures
        names_use(checkpoint_name(step, nth), step, nth as int),
{
    if nth >= 2 {
        law_numbers_are_read_back(nth);
        let name = checkpoint_name(step, nth);
        assert(name.take(step.len() as int) == step);
        assert(name.skip(step.len() + 1int) == decimal(nth));
    }
}

/// Writing a number keeps the text before it, and what is added is read back as the number.
pub proof fn law_number_is_appended(text: &mut String, n: usize)
    requires
        call_ensures(push_decimal, (text, n), ()),
    ensures
        final(text)@.len() > old(text)@.len(),
        final(text)@.take(old(text)@.len() as int) == old(text)@,
        is_number(final(text)@.skip(old(text)@.len() as int)),
        number_of(final(text)@.skip(old(text)@.len() as int)) == n,
{
    law_numbers_are_read_back(n as nat);
    assert(final(text)@.take(old(text)@.len() as int) == old(text)@);
    assert(final(text)@.skip(old(text)@.len() as int) == decimal(n as nat));
}

/// The checkpoint names that are made number the uses of a step.
pub proof fn law_made_names_number_uses(step: &str, nth: usize, r: String)
    requires
        nth >= 1,
        call_ensures(make_checkpoint_name, (step, nth), r),
    ensures
        names_use(r@, step@, nth as int),
{
    law_checkpoint_names_number_uses(step@, nth as nat);
}

} // verus!
