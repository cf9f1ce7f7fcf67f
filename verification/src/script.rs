//! Conversions between script values and Rust results, the report printed
//! for an uncaught exception, and the results of the file functions given
//! to scripts.

use crate::jslib::jsfn::JSRet;
use crate::text::{decimal, push_decimal};
use vstd::prelude::*;

verus! {

/// The outcome of converting a script value to a Rust value.
#[derive(Clone, Debug, PartialEq)]
pub enum ConversionResult<T> {
    Success(T),
    /// The value was of the wrong kind; the reason says how.
    Failure(String),
}

/// A conversion, or `Err(())` when it raised an exception, as the result of
/// a native function: a converted value, an error carrying the reason, or an
/// error that leaves the pending exception to speak for itself.
pub fn to_result<T>(r: Result<ConversionResult<T>, ()>) -> (out: JSRet<T>)
    ensures
        match r {
            Ok(ConversionResult::Success(v)) => out == Ok::<T, Option<String>>(v),
            Ok(ConversionResult::Failure(reason)) => out == Err::<T, Option<String>>(Some(reason)),
            Err(()) => out == Err::<T, Option<String>>(None),
        },
{
    match r {
        Ok(ConversionResult::Success(v)) => Ok(v),
        Ok(ConversionResult::Failure(reason)) => Err(Some(reason)),
        Err(()) => Err(None),
    }
}

/// Why a value cannot stand for an instance of a native class, checked in
/// this order: it is not an object, it is not an instance of the class, or
/// its private data is missing.  `is_instance` is only consulted for an
/// object and `has_private` only for an instance.
pub open spec fn spec_instance_failure(is_object: bool, is_instance: bool, has_private: bool) -> Option<Seq<char>> {
    if !is_object {
        Some("value is not an object"@)
    } else if !is_instance {
        Some("value is not instanceof the class"@)
    } else if !has_private {
        Some("value has no private"@)
    } else {
        None
    }
}

/// The conversion of a script value to an instance of a native class:
/// success exactly when all three checks pass, otherwise the reason of the
/// first one that fails.
pub fn instance_conversion(is_object: bool, is_instance: bool, has_private: bool) -> (r: ConversionResult<()>)
    ensures
        match spec_instance_failure(is_object, is_instance, has_private) {
            None => r == ConversionResult::Success(()),
            Some(reason) => r matches ConversionResult::Failure(s) && s@ == reason,
        },
{
    if !is_object {
        ConversionResult::Failure(String::from_str("value is not an object"))
    } else if !is_instance {
        ConversionResult::Failure(String::from_str("value is not instanceof the class"))
    } else if !has_private {
        ConversionResult::Failure(String::from_str("value has no private"))
    } else {
        ConversionResult::Success(())
    }
}

/// The check made by `bufferData` on its data argument.
pub fn require_object_data(is_object: bool) -> (r: JSRet<()>)
    ensures
        is_object ==> r is Ok,
        !is_object ==> (r matches Err(Some(msg)) && msg@ == "data is not an object. size?"@),
{
    if !is_object {
        Err(Some(String::from_str("data is not an object. size?")))
    } else {
        Ok(())
    }
}

/// What `String::from_utf8_lossy` makes of `bytes`: the text they encode,
/// with each invalid sequence replaced by U+FFFD.
pub uninterp spec fn utf8_lossy(bytes: Seq<u8>) -> Seq<char>;

/// `String::from_utf8_lossy`, as an owned string.
#[verifier::external_body]
fn decode_lossy(bytes: &[u8]) -> (s: String)
    ensures
        s@ == utf8_lossy(bytes@),
{
    String::from_utf8_lossy(bytes).into_owned()
}

/// The line reported for an uncaught exception raised at `line`:`column`
/// of the script named `file` (none for a script without a name), whose
/// message is `message`.
pub open spec fn exception_text(file: Option<Seq<char>>, line: nat, column: nat, message: Seq<char>) -> Seq<char> {
    let name = match file {
        Some(f) => f,
        None => "<no filename>"@,
    };
    "Exception at "@ + name + ":"@ + decimal(line) + ":"@ + decimal(column) + ": "@ + message
}

/// The same line when the script's name and the message are given as
/// bytes, each decoded as UTF-8 with invalid sequences replaced.
pub open spec fn exception_line(filename: Option<Seq<u8>>, line: nat, column: nat, message: Seq<u8>) -> Seq<char> {
    let file = match filename {
        Some(f) => Some(utf8_lossy(f)),
        None => None,
    };
    exception_text(file, line, column, utf8_lossy(message))
}

/// Formats the report of an uncaught exception from the already decoded
/// script name and message.
pub fn format_exception(file: Option<&str>, line: u32, column: u32, message: &str) -> (r: String)
    ensures
        r@ == exception_text(
            match file {
                Some(f) => Some(f@),
                None => None,
            },
            line as nat,
            column as nat,
            message@,
        ),
{
    let mut r = String::from_str("Exception at ");
    match file {
        Some(f) => r.append(f),
        None => r.append("<no filename>"),
    }
    r.append(":");
    push_decimal(&mut r, line as u64);
    r.append(":");
    push_decimal(&mut r, column as u64);
    r.append(": ");
    r.append(message);
    r
}

/// The report of an uncaught exception: where it was raised and its
/// message, both decoded as UTF-8 with invalid bytes replaced.
pub fn exception_report(filename: Option<&[u8]>, line: u32, column: u32, message: &[u8]) -> (r: String)
    ensures
        r@ == exception_line(
            match filename {
                Some(f) => Some(f@),
                None => None,
            },
            line as nat,
            column as nat,
            message@,
        ),
{
    let text = decode_lossy(message);
    match filename {
        Some(f) => {
            let name = decode_lossy(f);
            format_exception(Some(name.as_str()), line, column, text.as_str())
        },
        None => format_exception(None, line, column, text.as_str()),
    }
}

/// The result of `getFileSync` given what reading the file gave: `None`
/// when it could not be opened, otherwise its contents or the read error.
pub fn file_contents_result(read: Option<Result<String, String>>) -> (r: JSRet<Option<String>>)
    ensures
        match read {
            None => r == Ok::<Option<String>, Option<String>>(None),
            Some(Ok(c)) => r == Ok::<Option<String>, Option<String>>(Some(c)),
            Some(Err(e)) => r matches Err(Some(msg)) && msg@ == "Error reading contents: "@ + e@,
        },
{
    match read {
        None => Ok(None),
        Some(Ok(c)) => Ok(Some(c)),
        Some(Err(e)) => {
            let mut msg = String::from_str("Error reading contents: ");
            msg.append(e.as_str());
            Err(Some(msg))
        },
    }
}

/// A value converts to an instance only when it is an object, an instance
/// of the class and carries private data; otherwise the reason is that of
/// the first check it fails, whatever the later checks would say.
pub proof fn lemma_instance_checks(is_object: bool, is_instance: bool, has_private: bool)
    ensures
        spec_instance_failure(is_object, is_instance, has_private) is None
            <==> (is_object && is_instance && has_private),
        !is_object ==> spec_instance_failure(is_object, is_instance, has_private)
            == Some("value is not an object"@),
        is_object && !is_instance ==> spec_instance_failure(is_object, is_instance, has_private)
            == Some("value is not instanceof the class"@),
        is_object && is_instance && !has_private ==> spec_instance_failure(is_object, is_instance, has_private)
            == Some("value has no private"@),
{
}

} // verus!
