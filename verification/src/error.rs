//! Why a page cannot be compressed or recovered.

use crate::text::{append_decimal, decimal};
use pco::errors::PcoError;
use vstd::prelude::*;
use vstd::string::*;

verus! {

/// An invalid input to the codec.
#[derive(Debug, PartialEq, Eq)]
pub enum Error {
    /// The block to compress is not a fixed-width one.
    NotFixedWidth,
    /// The encoder was made for a width that Pcodec does not support.
    UnsupportedEncodingWidth { bits_per_value: usize },
    /// The page was refused by the compressor.
    CompressionFailed { cause: PcoError },
    /// The page does not come as a single buffer.
    BufferCount { got: usize },
    /// The decompressor was made for a width that Pcodec does not support.
    UnsupportedDecodingWidth { bits_per_value: usize },
    /// The buffer is not a valid stream of values of the width.
    DecompressionFailed { cause: PcoError },
    /// The stream holds another number of values than was asked for.
    ValueCount { expected: u64, got: usize },
    /// The values take another number of bytes than was asked for.
    ByteCount { expected_bytes: usize, got_bytes: usize },
}

/// `text` is how an error of `pco` prints itself.
pub open spec fn is_printed(cause: PcoError, text: Seq<char>) -> bool {
    exists|printed: String|
        #[trigger] to_string_from_display_ensures::<PcoError>(&cause, printed) && printed@ == text
}

impl Error {
    /// `text` is the message of this error.
    pub open spec fn is_message(self, text: Seq<char>) -> bool {
        match self {
            Error::NotFixedWidth => text
                == "Pcodec encoding only supports FixedWidth data blocks"@,
            Error::UnsupportedEncodingWidth { bits_per_value } => text
                == "Pcodec encoding only supports 16, 32, or 64 bit values, got "@ + decimal(
                bits_per_value as nat,
            ),
            Error::CompressionFailed { cause } => exists|reason: Seq<char>| #[trigger]
                is_printed(cause, reason) && text == "Pcodec compression failed: "@ + reason,
            Error::BufferCount { got } => text
                == "Pcodec decompression expects 1 buffer, but got "@ + decimal(got as nat),
            Error::UnsupportedDecodingWidth { bits_per_value } => text
                == "Pcodec decoding only supports 16, 32, or 64 bit values, got "@ + decimal(
                bits_per_value as nat,
            ),
            Error::DecompressionFailed { cause } => exists|reason: Seq<char>| #[trigger]
                is_printed(cause, reason) && text == "Pcodec decompression failed: "@ + reason,
            Error::ValueCount { expected, got } => text == "Pcodec decompression expected "@
                + decimal(expected as nat) + " values but got "@ + decimal(got as nat),
            Error::ByteCount { expected_bytes, got_bytes } => text == "Expected "@ + decimal(
                expected_bytes as nat,
            ) + " bytes after decompression, but got "@ + decimal(got_bytes as nat),
        }
    }

    /// The error as a sentence.
    pub fn message(&self) -> (text: String)
        ensures
            self.is_message(text@),
    {
        let mut text = String::new();
        match self {
            Error::NotFixedWidth => {
                text.append("Pcodec encoding only supports FixedWidth data blocks");
            },
            Error::UnsupportedEncodingWidth { bits_per_value } => {
                text.append("Pcodec encoding only supports 16, 32, or 64 bit values, got ");
                append_decimal(&mut text, *bits_per_value as u64);
            },
            Error::CompressionFailed { cause } => {
                let reason = cause.to_string();
                text.append("Pcodec compression failed: ");
                text.append(reason.as_str());
                assert(is_printed(*cause, reason@));
            },
            Error::BufferCount { got } => {
                text.append("Pcodec decompression expects 1 buffer, but got ");
                append_decimal(&mut text, *got as u64);
            },
            Error::UnsupportedDecodingWidth { bits_per_value } => {
                text.append("Pcodec decoding only supports 16, 32, or 64 bit values, got ");
                append_decimal(&mut text, *bits_per_value as u64);
            },
            Error::DecompressionFailed { cause } => {
                let reason = cause.to_string();
                text.append("Pcodec decompression failed: ");
                text.append(reason.as_str());
                assert(is_printed(*cause, reason@));
            },
            Error::ValueCount { expected, got } => {
                text.append("Pcodec decompression expected ");
                append_decimal(&mut text, *expected);
                text.append(" values but got ");
                append_decimal(&mut text, *got as u64);
            },
            Error::ByteCount { expected_bytes, got_bytes } => {
                text.append("Expected ");
                append_decimal(&mut text, *expected_bytes as u64);
                text.append(" bytes after decompression, but got ");
                append_decimal(&mut text, *got_bytes as u64);
            },
        }
        text
    }
}

} // verus!
