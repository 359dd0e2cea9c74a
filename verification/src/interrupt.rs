//! Stop signals: which ones end a run, and how the shared flag is tied to
//! them.

use signal_hook::consts::signal;
use std::sync::atomic::AtomicBool;
use std::sync::Arc;
use vstd::prelude::*;

verus! {

#[verifier::external_type_specification]
#[verifier::external_body]
pub struct ExIoError(std::io::Error);

/// A signal that asks the run to stop.
#[derive(Clone, Copy, Debug, PartialEq, Eq, Structural)]
pub enum StopSignal {
    Interrupt,
    Terminate,
    Quit,
    Pipe,
    Hangup,
    User1,
    User2,
}

/// A stop signal could not be tied to the flag.
#[derive(Clone, Debug)]
pub struct SignalError {
    pub signal: StopSignal,
    /// The signal's number on this platform.
    pub number: i32,
    /// The signal's name, empty where none is known.
    pub name: String,
    /// The text of the underlying failure.
    pub detail: String,
}

/// The stop signals, in the order in which they are registered.
pub open spec fn spec_stop_signals() -> Seq<StopSignal> {
    seq![
        StopSignal::Interrupt,
        StopSignal::Terminate,
        StopSignal::Quit,
        StopSignal::Pipe,
        StopSignal::Hangup,
        StopSignal::User1,
        StopSignal::User2,
    ]
}

/// The stop signals, in the order in which they are registered.
pub fn stop_signals() -> (signals: Vec<StopSignal>)
    ensures
        signals@ == spec_stop_signals(),
{
    let signals = vec![
        StopSignal::Interrupt,
        StopSignal::Terminate,
        StopSignal::Quit,
        StopSignal::Pipe,
        StopSignal::Hangup,
        StopSignal::User1,
        StopSignal::User2,
    ];
    signals
}

/// The name that a stop signal goes by.
pub open spec fn spec_signal_name(stop: StopSignal) -> Seq<char> {
    match stop {
        StopSignal::Interrupt => "SIGINT"@,
        StopSignal::Terminate => "SIGTERM"@,
        StopSignal::Quit => "SIGQUIT"@,
        StopSignal::Pipe => "SIGPIPE"@,
        StopSignal::Hangup => "SIGHUP"@,
        StopSignal::User1 => "SIGUSR1"@,
        StopSignal::User2 => "SIGUSR2"@,
    }
}

/// The number that this platform gives a stop signal, from the constants
/// of `signal_hook::consts::signal`, and `signal_hook::low_level::signal_name`
/// of that number: every stop signal is in that function's table, under the
/// name of its constant.
#[verifier::external_body]
fn signal_details(stop: StopSignal) -> (details: (i32, Option<String>))
    ensures
        details.1 is Some,
        details.1->0@ == spec_signal_name(stop),
{
    let number = match stop {
        StopSignal::Interrupt => signal::SIGINT,
        StopSignal::Terminate => signal::SIGTERM,
        StopSignal::Quit => signal::SIGQUIT,
        StopSignal::Pipe => signal::SIGPIPE,
        StopSignal::Hangup => signal::SIGHUP,
        StopSignal::User1 => signal::SIGUSR1,
        StopSignal::User2 => signal::SIGUSR2,
    };
    (number, signal_hook::low_level::signal_name(number).map(|name| name.to_string()))
}

/// `signal_hook::flag::register` for a stop signal: from then on the
/// signal sets the flag. None of the stop signals is one that the call
/// turns down with a panic.
#[verifier::external_body]
fn register_flag(stop: StopSignal, flag: &Arc<AtomicBool>) -> (res: Result<(), std::io::Error>) {
    let number = match stop {
        StopSignal::Interrupt => signal::SIGINT,
        StopSignal::Terminate => signal::SIGTERM,
        StopSignal::Quit => signal::SIGQUIT,
        StopSignal::Pipe => signal::SIGPIPE,
        StopSignal::Hangup => signal::SIGHUP,
        StopSignal::User1 => signal::SIGUSR1,
        StopSignal::User2 => signal::SIGUSR2,
    };
    signal_hook::flag::register(number, flag.clone()).map(|_| ())
}

/// The `Display` text of a `std::io::Error`.
#[verifier::external_body]
fn error_text(error: &std::io::Error) -> (text: String) {
    error.to_string()
}

/// The error for a stop signal that could not be registered.
pub fn registration_error(
    stop: StopSignal,
    number: i32,
    name: Option<String>,
    detail: String,
) -> (error: SignalError)
    ensures
        error.signal == stop,
        error.number == number,
        error.name@ == match name {
            Some(text) => text@,
            None => Seq::<char>::empty(),
        },
        error.detail == detail,
{
    let name = match name {
        Some(text) => text,
        None => String::new(),
    };
    SignalError { signal: stop, number, name, detail }
}

impl StopSignal {
    /// The name that the signal goes by.
    pub fn name(&self) -> (text: String)
        ensures
            text@ == spec_signal_name(*self),
    {
        match signal_details(*self).1 {
            Some(text) => text,
            None => String::new(),
        }
    }
}

/// Ties every stop signal to `shutdown`, so that the first one that
/// arrives sets it. Stops at the first signal that cannot be registered:
/// the error then holds that signal, under its name.
pub fn setup_interrupt_handler(shutdown: &Arc<AtomicBool>) -> (res: Result<(), SignalError>)
    ensures
        res matches Err(error) ==> {
            &&& spec_stop_signals().contains(error.signal)
            &&& error.name@ == spec_signal_name(error.signal)
        },
{
    let signals = stop_signals();
    let n: usize = signals.len();
    let mut i: usize = 0;
    while i < n
        invariant
            n == signals@.len(),
            signals@ == spec_stop_signals(),
            i <= n,
        decreases n - i,
    {
        let stop = signals[i];
        match register_flag(stop, shutdown) {
            Ok(()) => {},
            Err(e) => {
                let (number, name) = signal_details(stop);
                proof {
                    assert(spec_stop_signals()[i as int] == stop);
                }
                return Err(registration_error(stop, number, name, error_text(&e)));
            },
        }
        i = i + 1;
    }
    Ok(())
}

} // verus!
