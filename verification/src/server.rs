//! What a server makes of a request: the reply to an `Echo`, and the shuffle
//! that answers a `Jumble`.

use crate::protocol::{Request, RequestView, Response};
use crate::text::{chars_of, string_of};
use vstd::prelude::*;
use vstd::string::StringExecFns;

verus! {

/// `chars` with its first character and the one at `index` exchanged.
pub open spec fn swap_with_first(chars: Seq<char>, index: int) -> Seq<char> {
    chars.update(0, chars[index]).update(index, chars[0])
}

/// `chars` after `amount` rounds of shuffling: round `i`, counted from 1,
/// exchanges the first character with the one at `i` modulo the length.
pub open spec fn jumble(chars: Seq<char>, amount: nat) -> Seq<char>
    decreases amount,
{
    if amount == 0 {
        chars
    } else {
        swap_with_first(jumble(chars, (amount - 1) as nat), amount as int % chars.len() as int)
    }
}

/// Shuffles the characters of `message`: for each `i` from 1 to `amount`, the
/// first character changes places with the one at index `i` modulo the number
/// of characters. The result depends on the message and the amount and on
/// nothing else. There is nothing to exchange in an empty message, so one is
/// accepted only with an `amount` of zero.
pub fn jumble_message(message: &str, amount: u16) -> (jumbled: String)
    requires
        message@.len() > 0 || amount == 0,
    ensures
        jumbled@ == jumble(message@, amount as nat),
{
    let mut chars = chars_of(message);
    let mut i: usize = 1;
    while i <= amount as usize
        invariant
            1 <= i <= amount + 1,
            message@.len() > 0 || amount == 0,
            chars@.len() == message@.len(),
            chars@ == jumble(message@, (i - 1) as nat),
        decreases amount + 1 - i,
    {
        let shuffle = i % chars.len();
        let first = chars[0];
        let other = chars[shuffle];
        chars[0] = other;
        chars[shuffle] = first;
        i += 1;
    }
    string_of(&chars)
}

/// With an `amount` of zero the message comes back as it went in.
pub proof fn lemma_jumble_zero_is_identity(chars: Seq<char>)
    ensures
        jumble(chars, 0) == chars,
{
}

/// Shuffling moves characters and neither adds nor drops one: the result has
/// the length of the message and holds each character as often as it does.
pub proof fn lemma_jumble_permutes(chars: Seq<char>, amount: nat)
    requires
        chars.len() > 0,
    ensures
        jumble(chars, amount).len() == chars.len(),
        jumble(chars, amount).to_multiset() == chars.to_multiset(),
    decreases amount,
{
    if amount > 0 {
        let before = jumble(chars, (amount - 1) as nat);
        let index = amount as int % chars.len() as int;
        lemma_jumble_permutes(chars, (amount - 1) as nat);
        let halfway = before.update(0, before[index]);
        vstd::seq_lib::to_multiset_update(before, 0, before[index]);
        vstd::seq_lib::to_multiset_update(halfway, index, before[0]);
        vstd::seq_lib::to_multiset_contains(before, before[0]);
        vstd::seq_lib::to_multiset_contains(before, before[index]);
        assert(before.contains(before[0]));
        assert(before.contains(before[index]));
        assert(swap_with_first(before, index).to_multiset() =~= before.to_multiset());
    }
}

/// The message that answers an `Echo` of `message`.
pub open spec fn echo(message: Seq<char>) -> Seq<char> {
    "'"@ + message + "' from the other side!"@
}

/// What a server answers to `request`.
pub open spec fn reply(request: RequestView) -> Seq<char> {
    match request {
        RequestView::Echo(message) => echo(message),
        RequestView::Jumble { message, amount } => jumble(message, amount as nat),
    }
}

/// Whether `request` can be answered: every `Echo` can, and a `Jumble` unless
/// it asks to shuffle a message without characters.
pub open spec fn answerable(request: RequestView) -> bool {
    request matches RequestView::Jumble { message, amount } ==> message.len() > 0 || amount == 0
}

/// Tells whether `request` can be answered.
pub fn can_respond(request: &Request) -> (yes: bool)
    ensures
        yes == answerable(request@),
{
    match request {
        Request::Echo(_) => true,
        Request::Jumble { message, amount } => *amount == 0 || !message.as_str().is_empty(),
    }
}

/// The response to `request`: an `Echo` is answered with its message between
/// quotes and a greeting behind it, a `Jumble` with its message shuffled.
pub fn respond(request: Request) -> (response: Response)
    requires
        answerable(request@),
    ensures
        response@ == reply(request@),
{
    match request {
        Request::Echo(message) => {
            let mut text = String::from_str("'");
            text.append(message.as_str());
            text.append("' from the other side!");
            Response(text)
        },
        Request::Jumble { message, amount } => Response(jumble_message(message.as_str(), amount)),
    }
}

} // verus!
