//! The validated configuration surface and the decisions the program
//! shell acts on: which mode to run in and at which verbosity.
//!
//! Argument and environment parsing stay outside the library; they hand
//! in an [`Opts`] with every field already validated.

use vstd::prelude::*;
use crate::text::str_eq;

verus! {

/// Verbosity level of the logs.
#[derive(Clone, Copy, Debug, PartialEq, Eq, Structural)]
pub enum LogLevel {
    /// No logging at all.
    Off,
    /// Critical failures only.
    Critical,
    /// Errors.
    Error,
    /// Warnings and errors.
    Warning,
    /// Informational messages.
    Info,
    /// Debugging messages.
    Debug,
    /// Everything, including tracing.
    Trace,
}

/// Validated configuration, as the surrounding CLI layer supplies it.
#[derive(Clone, Debug)]
pub struct Opts {
    /// Debug mode: implies `Debug` verbosity when none is given.
    pub debug: bool,
    /// Path to a file to capture audio from.
    pub input_file: Option<String>,
    /// Name of a device to capture audio from.
    pub input_device: Option<String>,
    /// Name of a device to play audio to; the default output when
    /// absent.
    pub output_device: Option<String>,
    /// Display all input and output devices.
    pub show_devices: Option<bool>,
    /// Display all input devices.
    pub show_input_devices: Option<bool>,
    /// Display all output devices.
    pub show_output_devices: Option<bool>,
    /// Verbosity level of the logs.
    pub verbose: Option<LogLevel>,
}

/// What the inventory mode should list.
#[derive(Clone, Copy, Debug, PartialEq, Eq, Structural)]
pub enum InventoryScope {
    /// Every device, both directions.
    AllDevices,
    /// Capture-capable devices only.
    InputDevices,
    /// Playback-capable devices only.
    OutputDevices,
}

/// The mode a run executes in.
#[derive(Clone, Copy, Debug, PartialEq, Eq, Structural)]
pub enum RunMode {
    /// Print a device inventory and exit.
    Inventory(InventoryScope),
    /// Redirect audio from the configured source to the configured
    /// sink.
    Redirect,
}

impl Opts {
    /// The mode `opts` selects: inventory whenever any `show_*` flag is
    /// given, redirect otherwise. `show_devices` wins over the
    /// direction-scoped flags, and input listing over output listing.
    pub open spec fn spec_mode(self) -> RunMode {
        if self.show_devices is Some {
            RunMode::Inventory(InventoryScope::AllDevices)
        } else if self.show_input_devices is Some {
            RunMode::Inventory(InventoryScope::InputDevices)
        } else if self.show_output_devices is Some {
            RunMode::Inventory(InventoryScope::OutputDevices)
        } else {
            RunMode::Redirect
        }
    }

    /// Decides the run mode from the flags.
    pub fn select_mode(&self) -> (r: RunMode)
        ensures
            r == self.spec_mode(),
    {
        if self.show_devices.is_some() {
            RunMode::Inventory(InventoryScope::AllDevices)
        } else if self.show_input_devices.is_some() {
            RunMode::Inventory(InventoryScope::InputDevices)
        } else if self.show_output_devices.is_some() {
            RunMode::Inventory(InventoryScope::OutputDevices)
        } else {
            RunMode::Redirect
        }
    }

    /// The verbosity a run uses: the explicit `verbose` level when
    /// given, else `Debug` in debug mode, else none.
    pub open spec fn spec_verbosity(self) -> Option<LogLevel> {
        if self.verbose is Some {
            self.verbose
        } else if self.debug {
            Some(LogLevel::Debug)
        } else {
            None
        }
    }

    /// Decides the effective verbosity.
    pub fn effective_verbosity(&self) -> (r: Option<LogLevel>)
        ensures
            r == self.spec_verbosity(),
    {
        if self.verbose.is_some() {
            self.verbose
        } else if self.debug {
            Some(LogLevel::Debug)
        } else {
            None
        }
    }

    /// The level a verbosity token names, if it names one.
    pub open spec fn spec_log_level(lvl: Seq<char>) -> Option<LogLevel> {
        if lvl == "OFF"@ {
            Some(LogLevel::Off)
        } else if lvl == "CRIT"@ {
            Some(LogLevel::Critical)
        } else if lvl == "ERRO"@ {
            Some(LogLevel::Error)
        } else if lvl == "WARN"@ {
            Some(LogLevel::Warning)
        } else if lvl == "INFO"@ {
            Some(LogLevel::Info)
        } else if lvl == "DEBG"@ {
            Some(LogLevel::Debug)
        } else if lvl == "TRCE"@ {
            Some(LogLevel::Trace)
        } else {
            None
        }
    }

    /// Parses a [`LogLevel`] from its verbosity token. The allowed
    /// tokens are `OFF | CRIT | ERRO | WARN | INFO | DEBG | TRCE`; any
    /// other string is handed back unchanged as the error.
    pub fn parse_log_level(lvl: &str) -> (r: Result<LogLevel, String>)
        ensures
            match r {
                Ok(level) => Self::spec_log_level(lvl@) == Some(level),
                Err(s) => Self::spec_log_level(lvl@) is None && s@ == lvl@,
            },
    {
        if str_eq(lvl, "OFF") {
            Ok(LogLevel::Off)
        } else if str_eq(lvl, "CRIT") {
            Ok(LogLevel::Critical)
        } else if str_eq(lvl, "ERRO") {
            Ok(LogLevel::Error)
        } else if str_eq(lvl, "WARN") {
            Ok(LogLevel::Warning)
        } else if str_eq(lvl, "INFO") {
            Ok(LogLevel::Info)
        } else if str_eq(lvl, "DEBG") {
            Ok(LogLevel::Debug)
        } else if str_eq(lvl, "TRCE") {
            Ok(LogLevel::Trace)
        } else {
            Err(lvl.to_owned())
        }
    }
}

} // verus!
