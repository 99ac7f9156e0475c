//! The soft block, as the `rfkill` tool and the device `/dev/rfkill` tell of it.

use crate::service::BluetoothService;
use crate::text::{contains_run, contains_text};
use std::string::FromUtf8Error;
use vstd::prelude::*;
use vstd::utf8::{decode_utf8, valid_utf8};

verus! {

#[verifier::external_type_specification]
#[verifier::external_body]
pub struct ExFromUtf8Error(FromUtf8Error);

/// The bytes that were to be read as a text and are none.
pub uninterp spec fn rejected(error: FromUtf8Error) -> Seq<u8>;

/// `String::from_utf8`: the text that the bytes encode, and an error exactly where they are not
/// valid UTF-8. The error keeps the bytes.
pub assume_specification[ String::from_utf8 ](bytes: Vec<u8>) -> (text: Result<
    String,
    FromUtf8Error,
>)
    ensures
        text is Ok == valid_utf8(bytes@),
        text matches Ok(text) ==> text@ == decode_utf8(bytes@),
        text matches Err(error) ==> rejected(error) == bytes@,
;

/// The tool that tells of soft blocks.
pub const RFKILL_BINARY: &'static str = "rfkill";

/// The first argument of the tool: list the blocks.
pub const RFKILL_LIST: &'static str = "list";

/// The second argument of the tool: of which kind of device.
pub const RFKILL_KIND: &'static str = "bluetooth";

/// The device that changes with every soft block.
pub const RFKILL_DEVICE: &'static str = "/dev/rfkill";

/// How an operation of the machine failed.
#[derive(Debug)]
pub enum IoFailure {
    /// What it works on does not exist.
    NotFound,
    /// Anything else, with its description.
    Other(String),
}

/// Why it is not known whether Bluetooth is soft blocked.
#[derive(Debug)]
pub enum RfkillError {
    /// The tool is there and could not be run.
    Run(String),
    /// The tool printed something that is no text.
    NotUtf8(FromUtf8Error),
}

/// What an [`RfkillError`] stands for.
pub enum RfkillErrorView {
    Run(Seq<char>),
    NotUtf8(Seq<u8>),
}

impl View for RfkillError {
    type V = RfkillErrorView;

    open spec fn view(&self) -> RfkillErrorView {
        match *self {
            RfkillError::Run(description) => RfkillErrorView::Run(description@),
            RfkillError::NotUtf8(error) => RfkillErrorView::NotUtf8(rejected(error)),
        }
    }
}

/// Whether Bluetooth is soft blocked, by what came of `rfkill list bluetooth`. A machine without
/// the tool counts as not blocked.
pub open spec fn soft_block(run: Result<Vec<u8>, IoFailure>) -> Result<bool, RfkillErrorView> {
    match run {
        Err(IoFailure::NotFound) => Ok(false),
        Err(IoFailure::Other(description)) => Err(RfkillErrorView::Run(description@)),
        Ok(output) => if valid_utf8(output@) {
            Ok(contains_run(decode_utf8(output@), "Soft blocked: yes"@))
        } else {
            Err(RfkillErrorView::NotUtf8(output@))
        },
    }
}

/// How changes of the soft block are noticed.
#[derive(PartialEq, Eq, Structural, Debug, Clone, Copy)]
pub enum RfkillWatch {
    /// Each change of `/dev/rfkill` is reported.
    Reported,
    /// There is no `/dev/rfkill`, and nothing is ever reported.
    Silent,
}

impl BluetoothService {
    /// Whether Bluetooth is soft blocked. `run` is what came of `rfkill list bluetooth`: what it
    /// printed, or why it did not run.
    pub fn check_rfkill_soft_block(run: Result<Vec<u8>, IoFailure>) -> (blocked: Result<
        bool,
        RfkillError,
    >)
        ensures
            match blocked {
                Ok(blocked) => soft_block(run) == Ok::<_, RfkillErrorView>(blocked),
                Err(error) => soft_block(run) == Err::<bool, _>(error@),
            },
    {
        match run {
            Ok(output) => match String::from_utf8(output) {
                Ok(text) => Ok(contains_text(text.as_str(), "Soft blocked: yes")),
                Err(error) => Err(RfkillError::NotUtf8(error)),
            },
            Err(IoFailure::NotFound) => Ok(false),
            Err(IoFailure::Other(description)) => Err(RfkillError::Run(description)),
        }
    }

    /// How changes of the soft block are noticed. `watch` is what came of watching
    /// `/dev/rfkill`. A machine without that device has no changes to report; any other failure
    /// is handed on with its description.
    pub fn listen_rfkill_soft_block_changes(watch: Result<(), IoFailure>) -> (listening: Result<
        RfkillWatch,
        String,
    >)
        ensures
            match watch {
                Ok(_) => listening == Ok::<_, String>(RfkillWatch::Reported),
                Err(IoFailure::NotFound) => listening == Ok::<_, String>(RfkillWatch::Silent),
                Err(IoFailure::Other(description)) => listening == Err::<RfkillWatch, _>(
                    description,
                ),
            },
    {
        match watch {
            Ok(_) => Ok(RfkillWatch::Reported),
            Err(IoFailure::NotFound) => Ok(RfkillWatch::Silent),
            Err(IoFailure::Other(description)) => Err(description),
        }
    }
}

} // verus!
