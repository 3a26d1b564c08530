//! Data that goes into a child process or comes out of it.
use crate::text::{comma_separated, push_byte_list};
use std::string::FromUtf8Error;
use vstd::prelude::*;
use vstd::utf8::{decode_utf8, encode_utf8, valid_utf8};

verus! {

/// Bytes, or text that is known to be Unicode.
pub enum BinOrUtf8 {
    /// Any sequence of bytes.
    Bin(Vec<u8>),
    /// Text.
    Utf8(String),
}

/// What a [`BinOrUtf8`] holds.
#[verifier::ext_equal]
pub enum DataView {
    /// Any sequence of bytes.
    Bin(Seq<u8>),
    /// Text.
    Utf8(Seq<char>),
}

impl DataView {
    /// The bytes as which the data passes a pipe.
    pub open spec fn bytes(self) -> Seq<u8> {
        match self {
            DataView::Bin(bytes) => bytes,
            DataView::Utf8(text) => encode_utf8(text),
        }
    }

    /// The data as it is shown in messages.
    pub open spec fn shown(self) -> Seq<char> {
        match self {
            DataView::Bin(bytes) => "[bytes]: "@ + "["@ + comma_separated(bytes) + "]"@,
            DataView::Utf8(text) => "[utf8]: "@ + text,
        }
    }
}

impl View for BinOrUtf8 {
    type V = DataView;

    open spec fn view(&self) -> DataView {
        match self {
            BinOrUtf8::Bin(bytes) => DataView::Bin(bytes@),
            BinOrUtf8::Utf8(text) => DataView::Utf8(text@),
        }
    }
}

/// What an optional [`BinOrUtf8`] holds.
pub open spec fn data_view(data: Option<BinOrUtf8>) -> Option<DataView> {
    match data {
        Some(data) => Some(data@),
        None => None,
    }
}

/// What a call for text, or for bytes, makes of the bytes that came out of a process: bytes
/// are taken as they are, text is there only where they are UTF-8.
pub open spec fn capture_view(bytes: Seq<u8>, expect_utf8: bool) -> Option<DataView> {
    if !expect_utf8 {
        Some(DataView::Bin(bytes))
    } else if valid_utf8(bytes) {
        Some(DataView::Utf8(decode_utf8(bytes)))
    } else {
        None
    }
}

impl Clone for BinOrUtf8 {
    fn clone(&self) -> (copy: Self)
        ensures
            copy@ == self@,
    {
        match self {
            BinOrUtf8::Bin(bytes) => BinOrUtf8::Bin(bytes.clone()),
            BinOrUtf8::Utf8(text) => BinOrUtf8::Utf8(text.clone()),
        }
    }
}

impl BinOrUtf8 {
    /// The data as it is shown in messages.
    pub fn to_string(&self) -> (text: String)
        ensures
            text@ == self@.shown(),
    {
        match self {
            BinOrUtf8::Bin(bytes) => {
                let mut text: String = "[bytes]: ".to_owned();
                push_byte_list(&mut text, bytes);
                text
            },
            BinOrUtf8::Utf8(utf8) => {
                let mut text: String = "[utf8]: ".to_owned();
                text.append(utf8.as_str());
                text
            },
        }
    }

    /// The bytes as which the data passes a pipe.
    pub fn as_ref(&self) -> (bytes: &[u8])
        ensures
            bytes@ == self@.bytes(),
            self matches BinOrUtf8::Bin(b) ==> bytes@ == b@,
            self matches BinOrUtf8::Utf8(t) ==> bytes@ == encode_utf8(t@),
    {
        match self {
            BinOrUtf8::Bin(bytes) => bytes.as_slice(),
            BinOrUtf8::Utf8(text) => text.as_str().as_bytes(),
        }
    }

    /// Makes data of the bytes that came out of a process: text where `expect_utf8`, which
    /// there is only where they are UTF-8, and bytes otherwise.
    pub fn capture(bytes: Vec<u8>, expect_utf8: bool) -> (data: Option<BinOrUtf8>)
        ensures
            data_view(data) == capture_view(bytes@, expect_utf8),
    {
        if expect_utf8 {
            match String::from_utf8(bytes) {
                Ok(text) => {
                    proof {
                        vstd::utf8::encode_utf8_valid_utf8(text@);
                        vstd::utf8::encode_utf8_decode_utf8(text@);
                    }
                    Some(BinOrUtf8::Utf8(text))
                },
                Err(_) => None,
            }
        } else {
            Some(BinOrUtf8::Bin(bytes))
        }
    }
}

/// `std::string::FromUtf8Error`, carried as an opaque value.
#[verifier::external_type_specification]
#[verifier::external_body]
pub struct ExFromUtf8Error(FromUtf8Error);

/// `String::from_utf8` gives the text that the bytes encode if they are UTF-8, and an error
/// if they are not.
pub assume_specification[ String::from_utf8 ](bytes: Vec<u8>) -> (text: Result<
    String,
    FromUtf8Error,
>)
    ensures
        text is Ok <==> valid_utf8(bytes@),
        text matches Ok(t) ==> encode_utf8(t@) == bytes@,
;

} // verus!
