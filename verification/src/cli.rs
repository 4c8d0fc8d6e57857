//! Reading the command-line arguments of the control tool.

use vstd::prelude::*;

use crate::protocol::PollingRate;

verus! {

/// The text by which a polling rate is given on the command line.
pub open spec fn spec_rate_text(rate: PollingRate) -> Seq<char> {
    match rate {
        PollingRate::Hz125 => "125"@,
        PollingRate::Hz500 => "500"@,
        PollingRate::Hz1000 => "1000"@,
    }
}

/// The message that rejects a polling-rate text.
pub open spec fn spec_rate_error(value: Seq<char>) -> Seq<char> {
    "unsupported polling rate: "@ + value
}

/// What reading a polling-rate text gives.
pub open spec fn spec_parse_rate(value: Seq<char>) -> Result<PollingRate, Seq<char>> {
    if value == "125"@ {
        Ok(PollingRate::Hz125)
    } else if value == "500"@ {
        Ok(PollingRate::Hz500)
    } else if value == "1000"@ {
        Ok(PollingRate::Hz1000)
    } else {
        Err(spec_rate_error(value))
    }
}

/// The decimal digit character of a number below ten.
pub open spec fn spec_digit(d: nat) -> char {
    if d == 0 { '0' }
    else if d == 1 { '1' }
    else if d == 2 { '2' }
    else if d == 3 { '3' }
    else if d == 4 { '4' }
    else if d == 5 { '5' }
    else if d == 6 { '6' }
    else if d == 7 { '7' }
    else if d == 8 { '8' }
    else { '9' }
}

/// A number written in decimal, without leading zeros.
pub open spec fn spec_decimal(n: nat) -> Seq<char>
    decreases n,
{
    if n < 10 {
        seq![spec_digit(n)]
    } else {
        spec_decimal(n / 10).push(spec_digit(n % 10))
    }
}

/// True when two strings hold the same characters.
fn same_text(a: &str, b: &str) -> (same: bool)
    ensures
        same == (a@ == b@),
{
    let n: usize = a.unicode_len();
    if n != b.unicode_len() {
        return false;
    }
    let mut i: usize = 0;
    while i < n
        invariant
            i <= n,
            n == a@.len(),
            n == b@.len(),
            forall|j: int| 0 <= j < i ==> a@[j] == b@[j],
        decreases n - i,
    {
        if a.get_char(i) != b.get_char(i) {
            return false;
        }
        i = i + 1;
    }
    assert(a@ =~= b@);
    true
}

/// Reads a polling rate given as `125`, `500` or `1000`; any other text is
/// refused with the message `unsupported polling rate: <text>`.
pub fn parse_rate(value: &str) -> (result: Result<PollingRate, String>)
    ensures
        match result {
            Ok(rate) => spec_parse_rate(value@) == Ok::<PollingRate, Seq<char>>(rate),
            Err(message) => spec_parse_rate(value@) == Err::<PollingRate, Seq<char>>(message@),
        },
{
    if same_text(value, "125") {
        Ok(PollingRate::Hz125)
    } else if same_text(value, "500") {
        Ok(PollingRate::Hz500)
    } else if same_text(value, "1000") {
        Ok(PollingRate::Hz1000)
    } else {
        let message = String::from_str("unsupported polling rate: ");
        Err(message.concat(value))
    }
}

/// Every rate is accepted under its text, and its text is its rate in hertz
/// written in decimal.
pub proof fn lemma_rate_text_roundtrip(rate: PollingRate)
    ensures
        spec_parse_rate(spec_rate_text(rate)) == Ok::<PollingRate, Seq<char>>(rate),
        spec_rate_text(rate) == spec_decimal(rate.spec_hz() as nat),
{
    reveal_strlit("125");
    reveal_strlit("500");
    reveal_strlit("1000");
    assert(spec_decimal(125) =~= "125"@) by {
        reveal_with_fuel(spec_decimal, 4);
    }
    assert(spec_decimal(500) =~= "500"@) by {
        reveal_with_fuel(spec_decimal, 4);
    }
    assert(spec_decimal(1000) =~= "1000"@) by {
        reveal_with_fuel(spec_decimal, 5);
    }
    assert("125"@[0] != "500"@[0]);
    assert("125"@.len() != "1000"@.len());
    assert("500"@.len() != "1000"@.len());
}

/// A text is read as a rate exactly when it is that rate in hertz written in
/// decimal; every other text is refused with `unsupported polling rate: `
/// followed by the text itself.
pub proof fn lemma_parse_rate_exact(value: Seq<char>, rate: PollingRate)
    ensures
        spec_parse_rate(value) == Ok::<PollingRate, Seq<char>>(rate) <==> value == spec_decimal(
            rate.spec_hz() as nat,
        ),
        (forall|r: PollingRate| value != #[trigger] spec_decimal(r.spec_hz() as nat))
            ==> spec_parse_rate(value) == Err::<PollingRate, Seq<char>>(
            "unsupported polling rate: "@ + value,
        ),
        spec_parse_rate(value) matches Err(message) ==> message == "unsupported polling rate: "@
            + value,
{
    lemma_rate_text_roundtrip(PollingRate::Hz125);
    lemma_rate_text_roundtrip(PollingRate::Hz500);
    lemma_rate_text_roundtrip(PollingRate::Hz1000);
    reveal_strlit("125");
    reveal_strlit("500");
    reveal_strlit("1000");
    assert("125"@[0] != "500"@[0]);
    assert("125"@.len() != "1000"@.len());
    assert("500"@.len() != "1000"@.len());
    if forall|r: PollingRate| value != #[trigger] spec_decimal(r.spec_hz() as nat) {
        assert(value != spec_decimal(PollingRate::Hz125.spec_hz() as nat));
        assert(value != spec_decimal(PollingRate::Hz500.spec_hz() as nat));
        assert(value != spec_decimal(PollingRate::Hz1000.spec_hz() as nat));
    }
}

} // verus!
