//! The traffic of the simulated clients: numbered messages, one per tick.

use vstd::prelude::*;
use vstd::string::StringExecFns;

verus! {

/// The character of a decimal digit.
pub open spec fn digit_char(d: nat) -> char {
    if d == 0 {
        '0'
    } else if d == 1 {
        '1'
    } else if d == 2 {
        '2'
    } else if d == 3 {
        '3'
    } else if d == 4 {
        '4'
    } else if d == 5 {
        '5'
    } else if d == 6 {
        '6'
    } else if d == 7 {
        '7'
    } else if d == 8 {
        '8'
    } else {
        '9'
    }
}

/// The decimal notation of `n`, without leading zeros.
pub open spec fn decimal(n: nat) -> Seq<char>
    decreases n,
{
    if n < 10 {
        seq![digit_char(n)]
    } else {
        decimal(n / 10).push(digit_char(n % 10))
    }
}

/// The number that a digit character stands for.
pub open spec fn digit_value(c: char) -> int {
    (c as u32) as int - 48
}

/// Whether a character is one of the decimal digits `0` to `9`.
pub open spec fn is_decimal_digit(c: char) -> bool {
    48 <= (c as u32) && (c as u32) <= 57
}

/// The number that a string of decimal digits denotes, most significant
/// digit first.
pub open spec fn digits_value(digits: Seq<char>) -> int
    decreases digits.len(),
{
    if digits.len() == 0 {
        0
    } else {
        digits_value(digits.drop_last()) * 10 + digit_value(digits.last())
    }
}

/// `decimal(n)` is the decimal notation of `n`: a non-empty string of
/// decimal digits, without a leading zero unless `n` is zero, that read in
/// base ten gives back `n`.
pub proof fn law_decimal_is_notation(n: nat)
    ensures
        decimal(n).len() > 0,
        forall|i: int| 0 <= i < decimal(n).len() ==> is_decimal_digit(#[trigger] decimal(n)[i]),
        decimal(n)[0] != '0' || n == 0,
        digits_value(decimal(n)) == n,
    decreases n,
{
    if n < 10 {
        assert(digits_value(decimal(n).drop_last()) == 0) by {
            assert(decimal(n).drop_last() =~= Seq::<char>::empty());
        }
        if n == 0 { assert(digit_value('0') == 0); }
        else if n == 1 { assert(digit_value('1') == 1); }
        else if n == 2 { assert(digit_value('2') == 2); }
        else if n == 3 { assert(digit_value('3') == 3); }
        else if n == 4 { assert(digit_value('4') == 4); }
        else if n == 5 { assert(digit_value('5') == 5); }
        else if n == 6 { assert(digit_value('6') == 6); }
        else if n == 7 { assert(digit_value('7') == 7); }
        else if n == 8 { assert(digit_value('8') == 8); }
        else { assert(digit_value('9') == 9); }
    } else {
        let q = n / 10;
        let r = n % 10;
        law_decimal_is_notation(q);
        law_decimal_is_notation(r);
        let d = decimal(n);
        assert(d.drop_last() =~= decimal(q));
        assert(d.last() == digit_char(r));
        assert(decimal(r) =~= seq![digit_char(r)]);
        assert(digit_value(digit_char(r)) == r) by {
            assert(digits_value(decimal(r)) == r);
            assert(decimal(r).drop_last() =~= Seq::<char>::empty());
        }
        assert(n == q * 10 + r);
        assert(q != 0);
        assert(d[0] == decimal(q)[0]);
        assert forall|i: int| 0 <= i < d.len() implies is_decimal_digit(#[trigger] d[i]) by {
            if i < d.len() - 1 {
                assert(d[i] == decimal(q)[i]);
            } else {
                assert(d[i] == decimal(r)[0]);
            }
        }
    }
}

/// The one-character text of a decimal digit.
fn digit_text(d: u64) -> (text: &'static str)
    requires
        d < 10,
    ensures
        text@ == seq![digit_char(d as nat)],
{
    if d == 0 {
        proof {
            reveal_strlit("0");
        }
        "0"
    } else if d == 1 {
        proof {
            reveal_strlit("1");
        }
        "1"
    } else if d == 2 {
        proof {
            reveal_strlit("2");
        }
        "2"
    } else if d == 3 {
        proof {
            reveal_strlit("3");
        }
        "3"
    } else if d == 4 {
        proof {
            reveal_strlit("4");
        }
        "4"
    } else if d == 5 {
        proof {
            reveal_strlit("5");
        }
        "5"
    } else if d == 6 {
        proof {
            reveal_strlit("6");
        }
        "6"
    } else if d == 7 {
        proof {
            reveal_strlit("7");
        }
        "7"
    } else if d == 8 {
        proof {
            reveal_strlit("8");
        }
        "8"
    } else {
        proof {
            reveal_strlit("9");
        }
        "9"
    }
}

/// Appends the decimal notation of `n` to `text`.
fn push_decimal(text: &mut String, n: u64)
    ensures
        final(text)@ == old(text)@ + decimal(n as nat),
    decreases n,
{
    if n >= 10 {
        push_decimal(text, n / 10);
    }
    text.append(digit_text(n % 10));

}

/// The text of the `i`-th message of a simulated client.
pub open spec fn numbered_text(i: nat) -> Seq<char> {
    "Messagio "@ + decimal(i)
}

/// The `i`-th message of a simulated client: `Messagio ` and the number.
pub fn numbered_message(i: u64) -> (message: String)
    ensures
        message@ == numbered_text(i as nat),
{
    let mut message = String::from_str("Messagio ");
    push_decimal(&mut message, i);
    message
}

/// The text of the `i`-th log record sent by a simulated client: a JSON log
/// record whose message is `Message ` and the number.
pub open spec fn log_record_text(i: nat) -> Seq<char> {
    "{\"@timestamp\":\"2017-03-24T09:16:42.636040+01:00\",\"@source\":\"dev-all-onebiptrusty cli\",\"@fields\":{\"channel\":\"integrationtest-client\",\"level\":100,\"extra_level_name\":\"DEBUG\",\"extra_uname\":\"dev-all-onebiptrusty\",\"extra_sapi\":\"cli\",\"extra_process_id\":17954},\"@message\":\"Message "@
        + decimal(i) + "\"}"@
}

/// The `i`-th log record sent by a simulated client.
pub fn log_record_message(i: u64) -> (message: String)
    ensures
        message@ == log_record_text(i as nat),
{
    let mut message = String::from_str(
        "{\"@timestamp\":\"2017-03-24T09:16:42.636040+01:00\",\"@source\":\"dev-all-onebiptrusty cli\",\"@fields\":{\"channel\":\"integrationtest-client\",\"level\":100,\"extra_level_name\":\"DEBUG\",\"extra_uname\":\"dev-all-onebiptrusty\",\"extra_sapi\":\"cli\",\"extra_process_id\":17954},\"@message\":\"Message ",
    );
    push_decimal(&mut message, i);
    message.append("\"}");
    message
}

/// The number of the message a simulated client sends at the next tick:
/// ticks are counted from one.
pub fn next_tick(i: u64) -> (next: u64)
    requires
        i < u64::MAX,
    ensures
        next == i + 1,
{
    i + 1
}

/// The number of messages a client sends on a fixed schedule.
pub const SCHEDULED_MESSAGES: u64 = 10;

/// The schedule of a client that sends a fixed number of messages: the
/// `i`-th of them (counting from one) is sent `i` seconds after the start,
/// and is the `i`-th numbered message.
pub fn message_schedule() -> (schedule: Vec<(u64, String)>)
    ensures
        schedule@.len() == SCHEDULED_MESSAGES,
        forall|k: int|
            0 <= k < schedule@.len() ==> #[trigger] schedule@[k].0 == k + 1
                && schedule@[k].1@ == numbered_text((k + 1) as nat),
{
    let mut schedule: Vec<(u64, String)> = Vec::new();
    let mut i: u64 = 1;
    while i <= SCHEDULED_MESSAGES
        invariant
            1 <= i <= SCHEDULED_MESSAGES + 1,
            schedule@.len() == i - 1,
            forall|k: int|
                0 <= k < schedule@.len() ==> #[trigger] schedule@[k].0 == k + 1
                    && schedule@[k].1@ == numbered_text((k + 1) as nat),
        decreases SCHEDULED_MESSAGES + 1 - i,
    {
        schedule.push((i, numbered_message(i)));
        i = i + 1;
    }
    schedule
}

} // verus!
