//! What errors say of themselves.

use crate::error::Error;
use crate::text::decimal;
use pco::errors::PcoError;
use vstd::prelude::*;
use vstd::string::to_string_from_display_ensures;

verus! {

/// Decimal notation reads back as the number: it consists of decimal digits,
/// at least one, the first of them is not zero but for zero itself, and their
/// positional value is the number.
pub proof fn law_decimal_reads_back(n: nat)
    ensures
        decimal(n).len() > 0,
        forall|i: int| 0 <= i < decimal(n).len() ==> '0' <= #[trigger] decimal(n)[i] <= '9',
        n > 0 ==> decimal(n)[0] != '0',
        n == 0 ==> decimal(n).len() == 1,
        decimal(n).fold_left(0int, |value: int, d: char| 10 * value + (d as int - '0' as int)) == n,
    decreases n,
{
    let f = |value: int, d: char| 10 * value + (d as int - '0' as int);
    if n >= 10 {
        law_decimal_reads_back(n / 10);
        assert(decimal(n).drop_last() =~= decimal(n / 10));
    } else {
        assert(decimal(n).drop_last() =~= Seq::<char>::empty());
        reveal_with_fuel(Seq::fold_left, 2);
    }
}

/// Each error says, in the words below, what was refused and the numbers at
/// fault, or why `pco` refused it.
pub proof fn law_messages(error: Error, text: String)
    requires
        call_ensures(Error::message, (&error,), text),
    ensures
        match error {
            Error::NotFixedWidth => text@
                == "Pcodec encoding only supports FixedWidth data blocks"@,
            Error::UnsupportedEncodingWidth { bits_per_value } => text@
                == "Pcodec encoding only supports 16, 32, or 64 bit values, got "@ + decimal(
                bits_per_value as nat,
            ),
            Error::CompressionFailed { cause } => exists|printed: String|
                #[trigger] to_string_from_display_ensures::<PcoError>(&cause, printed) && text@
                    == "Pcodec compression failed: "@ + printed@,
            Error::BufferCount { got } => text@
                == "Pcodec decompression expects 1 buffer, but got "@ + decimal(got as nat),
            Error::UnsupportedDecodingWidth { bits_per_value } => text@
                == "Pcodec decoding only supports 16, 32, or 64 bit values, got "@ + decimal(
                bits_per_value as nat,
            ),
            Error::DecompressionFailed { cause } => exists|printed: String|
                #[trigger] to_string_from_display_ensures::<PcoError>(&cause, printed) && text@
                    == "Pcodec decompression failed: "@ + printed@,
            Error::ValueCount { expected, got } => text@ == "Pcodec decompression expected "@
                + decimal(expected as nat) + " values but got "@ + decimal(got as nat),
            Error::ByteCount { expected_bytes, got_bytes } => text@ == "Expected "@ + decimal(
                expected_bytes as nat,
            ) + " bytes after decompression, but got "@ + decimal(got_bytes as nat),
        },
{
}

} // verus!
