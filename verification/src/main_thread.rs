//! The commands that the worker serves, and the host's main-thread state:
//! what the plugin may ask of the host on the main thread.

use crate::gui::GuiSize;
use crate::timer::{
    due, effective_interval, is_min_interval, ticked_all, wait_for, TimerEntry, TimerId, Timers,
    MIN_INTERVAL_NANOS,
};
use clack_extensions::gui::PluginGui;
use clack_extensions::timer::PluginTimer;
use vstd::prelude::*;

verus! {

/// A command to the worker, from a caller's handle or from the plugin.
///
/// `A` is the audio that a caller wants processed: input buffers, port
/// configurations and input events. The host hands it over as it is.
#[derive(Debug, PartialEq, Eq)]
pub enum MainThreadMessage<A> {
    /// The plugin asked to be called back on the main thread.
    RunOnMainThread,
    /// The plugin's window was closed.
    GuiClosed,
    /// The plugin asked for its window to get this size.
    GuiRequestResized(GuiSize),
    /// A caller wants this audio processed.
    ProcessAudio(A),
    /// A caller asks for the steady time.
    GetCounter,
    /// A caller asks for the plugin's state.
    GetState,
    /// A caller hands the plugin a state to load.
    SetState(Vec<u8>),
}

/// Why the host refused a request of the plugin.
#[derive(Clone, Copy, Debug, PartialEq, Eq, Structural)]
pub enum HostError {
    /// No timer with that identifier is registered.
    UnknownTimer,
    /// Every timer identifier has been handed out.
    TimersExhausted,
}

impl HostError {
    /// The error in words.
    pub fn message(&self) -> (message: &'static str)
        ensures
            message@ == match *self {
                HostError::UnknownTimer => "Unknown timer ID"@,
                HostError::TimersExhausted => "No timer ID left"@,
            },
    {
        match self {
            HostError::UnknownTimer => "Unknown timer ID",
            HostError::TimersExhausted => "No timer ID left",
        }
    }
}

/// How severe the plugin says a log message is.
#[derive(Clone, Copy, Debug, PartialEq, Eq, Structural)]
pub enum LogSeverity {
    Debug,
    Info,
    Warning,
    Error,
    Fatal,
    HostMisbehaving,
    PluginMisbehaving,
}

/// The level at which the host logs a message of the plugin.
#[derive(Clone, Copy, Debug, PartialEq, Eq, Structural)]
pub enum LogLevel {
    Debug,
    Info,
    Warn,
    Error,
}

/// The level for each severity: debug, info and warning keep theirs, and
/// everything from error upwards is an error.
pub open spec fn level_of(severity: LogSeverity) -> LogLevel {
    match severity {
        LogSeverity::Debug => LogLevel::Debug,
        LogSeverity::Info => LogLevel::Info,
        LogSeverity::Warning => LogLevel::Warn,
        _ => LogLevel::Error,
    }
}

/// The interval, in nanoseconds, of a timer asked for with a period in milliseconds.
pub open spec fn period_nanos(period_ms: u32) -> u64 {
    (period_ms * 1_000_000) as u64
}

/// The host's state on the main thread: the extensions that the plugin
/// offers, its timers, and whether its state changed since it was last saved.
pub struct MainThread {
    gui: Option<PluginGui>,
    timer_support: Option<PluginTimer>,
    timers: Timers,
    dirty: bool,
}

impl MainThread {
    /// The timers by identifier.
    pub closed spec fn entries(&self) -> Map<u32, TimerEntry> {
        self.timers.entries()
    }

    /// The timer identifier handed out last.
    pub closed spec fn latest_id(&self) -> u32 {
        self.timers.latest_id()
    }

    /// The smallest interval among the timers, if there is a timer.
    pub closed spec fn smallest_interval(&self) -> Option<u64> {
        self.timers.smallest()
    }

    /// Whether the plugin's state changed since it was last saved.
    pub closed spec fn dirty(&self) -> bool {
        self.dirty
    }

    /// The plugin's timer extension, as it was handed in, if it offers one.
    pub closed spec fn timer_extension(&self) -> Option<PluginTimer> {
        self.timer_support
    }

    /// The plugin's GUI extension, as it was handed in, if it offers one.
    pub closed spec fn gui_extension(&self) -> Option<PluginGui> {
        self.gui
    }

    /// Whether the plugin offers the timer extension.
    pub open spec fn has_timer_support(&self) -> bool {
        self.timer_extension() is Some
    }

    /// Whether the plugin offers the GUI extension.
    pub open spec fn has_gui(&self) -> bool {
        self.gui_extension() is Some
    }

    /// What the state satisfies between calls.
    pub closed spec fn wf(&self) -> bool {
        self.timers.wf()
    }

    /// The state before the plugin is initialised: no extension is known, no
    /// timer registered, nothing dirty.
    pub fn new() -> (main_thread: Self)
        ensures
            main_thread.wf(),
            main_thread.entries() == Map::<u32, TimerEntry>::empty(),
            main_thread.latest_id() == 0,
            !main_thread.dirty(),
            !main_thread.has_timer_support(),
            !main_thread.has_gui(),
    {
        Self { gui: None, timer_support: None, timers: Timers::new(), dirty: false }
    }

    /// Takes note of the extensions that the initialised plugin offers, and
    /// starts over with no timers.
    pub fn initialized(&mut self, gui: Option<PluginGui>, timer_support: Option<PluginTimer>)
        ensures
            final(self).wf(),
            final(self).entries() == Map::<u32, TimerEntry>::empty(),
            final(self).latest_id() == 0,
            final(self).dirty() == old(self).dirty(),
            final(self).gui_extension() == gui,
            final(self).timer_extension() == timer_support,
    {
        self.gui = gui;
        self.timer_support = timer_support;
        self.timers = Timers::new();
    }

    /// The plugin's GUI extension, if it offers one.
    pub fn gui(&self) -> (gui: Option<PluginGui>)
        ensures
            gui == self.gui_extension(),
    {
        self.gui
    }

    /// The plugin's timer extension, if it offers one.
    pub fn timer_support(&self) -> (timer_support: Option<PluginTimer>)
        ensures
            timer_support == self.timer_extension(),
    {
        self.timer_support
    }

    /// Whether the plugin's state changed since it was last saved.
    pub fn is_dirty(&self) -> (dirty: bool)
        ensures
            dirty == self.dirty(),
    {
        self.dirty
    }

    /// The plugin says that its state changed.
    pub fn mark_dirty(&mut self)
        ensures
            final(self).dirty(),
            final(self).entries() == old(self).entries(),
            final(self).latest_id() == old(self).latest_id(),
            final(self).wf() == old(self).wf(),
            final(self).gui_extension() == old(self).gui_extension(),
            final(self).timer_extension() == old(self).timer_extension(),
    {
        self.dirty = true;
    }

    /// The plugin asks whether the host can rescan its audio ports in some
    /// way. It cannot, in any way.
    pub fn is_rescan_flag_supported(&self) -> (supported: bool)
        ensures
            !supported,
    {
        false
    }

    /// The level at which a message of the plugin is logged.
    pub fn log(severity: LogSeverity) -> (level: LogLevel)
        ensures
            level == level_of(severity),
    {
        match severity {
            LogSeverity::Info => LogLevel::Info,
            LogSeverity::Debug => LogLevel::Debug,
            LogSeverity::Warning => LogLevel::Warn,
            LogSeverity::Error
            | LogSeverity::Fatal
            | LogSeverity::HostMisbehaving
            | LogSeverity::PluginMisbehaving => LogLevel::Error,
        }
    }

    /// The plugin asks for a timer that fires every `period_ms` milliseconds.
    /// It gets one, with that period or 30 ms if that is longer, unless the
    /// identifiers have run out.
    pub fn register_timer(&mut self, period_ms: u32) -> (registered: Result<TimerId, HostError>)
        requires
            old(self).wf(),
        ensures
            final(self).wf(),
            final(self).dirty() == old(self).dirty(),
            final(self).gui_extension() == old(self).gui_extension(),
            final(self).timer_extension() == old(self).timer_extension(),
            match registered {
                Ok(id) => {
                    &&& old(self).latest_id() < u32::MAX
                    &&& id.0 == old(self).latest_id() + 1
                    &&& final(self).latest_id() == id.0
                    &&& !old(self).entries().contains_key(id.0)
                    &&& final(self).entries() == old(self).entries().insert(
                        id.0,
                        TimerEntry {
                            interval: effective_interval(period_nanos(period_ms)),
                            last_fire: None,
                        },
                    )
                },
                Err(error) => {
                    &&& old(self).latest_id() == u32::MAX
                    &&& error == HostError::TimersExhausted
                    &&& final(self).entries() == old(self).entries()
                    &&& final(self).latest_id() == old(self).latest_id()
                },
            },
    {
        if !self.timers.can_register() {
            return Err(HostError::TimersExhausted);
        }
        let interval: u64 = period_ms as u64 * 1_000_000;
        Ok(self.timers.register_new(interval))
    }

    /// The plugin gives a timer back. An identifier that is not registered
    /// is an error and changes nothing.
    pub fn unregister_timer(&mut self, timer_id: TimerId) -> (unregistered: Result<(), HostError>)
        requires
            old(self).wf(),
        ensures
            final(self).wf(),
            final(self).dirty() == old(self).dirty(),
            final(self).gui_extension() == old(self).gui_extension(),
            final(self).timer_extension() == old(self).timer_extension(),
            final(self).latest_id() == old(self).latest_id(),
            final(self).entries() == old(self).entries().remove(timer_id.0),
            unregistered is Ok == old(self).entries().contains_key(timer_id.0),
            unregistered matches Err(error) ==> error == HostError::UnknownTimer,
    {
        if self.timers.unregister(timer_id) {
            Ok(())
        } else {
            Err(HostError::UnknownTimer)
        }
    }

    /// How long the worker may wait before it ticks the timers again: the
    /// smallest interval among the timers, or 30 ms without timers.
    pub fn next_wait(&self) -> (wait: u64)
        requires
            self.wf(),
        ensures
            is_min_interval(self.entries(), self.smallest_interval()),
            wait == wait_for(self.smallest_interval()),
            wait >= MIN_INTERVAL_NANOS,
    {
        self.timers.next_wait()
    }

    /// Ticks the timers at `now` and answers which callbacks the plugin is
    /// owed. A plugin without the timer extension has no timers to tick.
    pub fn tick(&mut self, now: u64) -> (fired: Vec<TimerId>)
        requires
            old(self).wf(),
        ensures
            final(self).wf(),
            final(self).dirty() == old(self).dirty(),
            final(self).gui_extension() == old(self).gui_extension(),
            final(self).timer_extension() == old(self).timer_extension(),
            final(self).latest_id() == old(self).latest_id(),
            fired@.no_duplicates(),
            old(self).has_timer_support() ==> {
                &&& final(self).entries() == ticked_all(old(self).entries(), now)
                &&& forall|id: u32| #[trigger]
                    fired@.contains(TimerId(id)) <==> old(self).entries().contains_key(id) && due(
                        old(self).entries()[id],
                        now,
                    )
            },
            !old(self).has_timer_support() ==> {
                &&& final(self).entries() == old(self).entries()
                &&& fired@.len() == 0
            },
    {
        if self.timer_support.is_some() {
            self.timers.tick_all(now)
        } else {
            Vec::new()
        }
    }
}

} // verus!
