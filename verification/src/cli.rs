//! The decisions of one invocation.
//!
//! An invocation turns its command line into a command, then follows either
//! the read path or the write path. The operating-system queries themselves —
//! which window holds focus, which keyboard layout its owning thread uses,
//! whether a change request was accepted — happen outside the library; their
//! results arrive here as plain values, and these functions say exactly what
//! outcome each combination of results produces.

use vstd::prelude::*;

use crate::error::LocaleError;
use crate::locale::lemma_locale_bounded;
use crate::locale::locale_from_layout;
use crate::locale::locale_of_layout;
use crate::numerals::all_dec_digits;
use crate::numerals::dec_numeral;
use crate::numerals::digits_value;
use crate::numerals::is_signed_numeral;
use crate::numerals::lemma_dec_numeral_value;
use crate::numerals::numeral_value;
use crate::numerals::parse_locale;

verus! {

/// What one invocation was asked to do.
#[derive(Clone, Copy, Debug, PartialEq, Eq, Structural)]
pub enum Command {
    /// Print the focused window's current input locale.
    Read,
    /// Ask the focused window to switch to the given input locale.
    Write(i64),
}

/// The command a command line denotes. The first element of `args` is the
/// program name; one further argument is the locale to set, and more than one
/// is a usage error.
pub open spec fn plan_spec(args: Seq<String>) -> Result<Command, LocaleError> {
    if args.len() == 1 {
        Ok(Command::Read)
    } else if args.len() == 2 {
        if is_signed_numeral(args[1]@) && i64::MIN <= numeral_value(args[1]@)
            && numeral_value(args[1]@) <= i64::MAX {
            Ok(Command::Write(numeral_value(args[1]@) as i64))
        } else {
            Err(LocaleError::InvalidArgument)
        }
    } else {
        Err(LocaleError::UsageError)
    }
}

/// Turns the command line into the command to run, or into the error that
/// ends the invocation.
pub fn plan_invocation(args: &Vec<String>) -> (r: Result<Command, LocaleError>)
    ensures
        r == plan_spec(args@),
{
    if args.len() == 1 {
        Ok(Command::Read)
    } else if args.len() == 2 {
        match parse_locale(args[1].as_str()) {
            Some(v) => Ok(Command::Write(v)),
            None => Err(LocaleError::InvalidArgument),
        }
    } else {
        Err(LocaleError::UsageError)
    }
}

/// The result of the read path: `focus` holds the raw keyboard-layout value
/// of the focused window's owning thread, or nothing when no window holds
/// focus.
pub open spec fn read_locale_spec(focus: Option<u64>) -> Result<u64, LocaleError> {
    match focus {
        Some(raw) => Ok(locale_of_layout(raw)),
        None => Err(LocaleError::NoForegroundWindow),
    }
}

/// The read path: extracts the locale identifier from what the operating
/// system reported, or fails when no window holds focus.
pub fn read_locale(focus: Option<u64>) -> (r: Result<u64, LocaleError>)
    ensures
        r == read_locale_spec(focus),
        r matches Ok(locale) ==> locale < 0x10000,
{
    match focus {
        Some(raw) => Ok(locale_from_layout(raw)),
        None => Err(LocaleError::NoForegroundWindow),
    }
}

/// The outcome of the write path: `focus_held` says whether a foreground
/// window existed, `accepted` whether the operating system accepted the
/// change request posted to its message queue.
pub open spec fn write_request_spec(focus_held: bool, accepted: bool) -> Result<
    (),
    LocaleError,
> {
    if !focus_held {
        Err(LocaleError::NoForegroundWindow)
    } else if accepted {
        Ok(())
    } else {
        Err(LocaleError::PostRequestFailed)
    }
}

/// The write path's outcome. Success means only that the change request was
/// enqueued for the window; nothing waits for or verifies the change itself.
pub fn write_request_outcome(focus_held: bool, accepted: bool) -> (r: Result<(), LocaleError>)
    ensures
        r == write_request_spec(focus_held, accepted),
{
    if !focus_held {
        Err(LocaleError::NoForegroundWindow)
    } else if accepted {
        Ok(())
    } else {
        Err(LocaleError::PostRequestFailed)
    }
}

/// What the read path prints is a decimal numeral that denotes a
/// non-negative value below 2^16: the locale identifier itself.
pub proof fn lemma_read_prints_nonnegative_numeral(raw: u64)
    ensures
        0 <= locale_of_layout(raw) < 0x10000,
        all_dec_digits(dec_numeral(locale_of_layout(raw) as int)),
        digits_value(dec_numeral(locale_of_layout(raw) as int)) == locale_of_layout(raw),
{
    lemma_locale_bounded(raw);
    lemma_dec_numeral_value(locale_of_layout(raw) as int);
}

/// A change request succeeds exactly when a window holds focus and the
/// operating system accepts the post; no downstream effect is consulted.
pub proof fn lemma_write_succeeds_iff_accepted(focus_held: bool, accepted: bool)
    ensures
        write_request_spec(focus_held, accepted) is Ok <==> focus_held && accepted,
{
}

/// Two reads with no intervening change — the same focus state and the same
/// layout at both — return the same locale.
pub proof fn lemma_read_idempotent(first: Option<u64>, second: Option<u64>)
    requires
        first == second,
    ensures
        read_locale_spec(first) == read_locale_spec(second),
{
}

/// When no window holds focus, the read path and the write path fail with
/// the same error, whatever else the invocation supplied.
pub proof fn lemma_no_focus_fails_identically(accepted: bool)
    ensures
        read_locale_spec(None) == Result::<u64, LocaleError>::Err(
            LocaleError::NoForegroundWindow,
        ),
        write_request_spec(false, accepted) == Result::<(), LocaleError>::Err(
            LocaleError::NoForegroundWindow,
        ),
{
}

} // verus!
