use clack_extensions::state::{PluginState, PluginStateImpl};
use clack_extensions::timer::{PluginTimer, PluginTimerImpl, TimerId as RawTimerId};
use clack_host::entry::PluginEntry;
use clack_host::host::{HostHandlers, HostInfo};
use clack_host::plugin::{PluginInstance, PluginMainThreadHandle};
use clack_plugin::entry::{DefaultPluginFactory, SinglePluginEntry};
use clack_plugin::extensions::PluginExtensions;
use clack_plugin::host::{HostMainThreadHandle, HostSharedHandle};
use clack_plugin::plugin::{Plugin, PluginDescriptor, PluginError, PluginMainThread};
use clack_plugin::stream::{InputStream, OutputStream};
use plugin_host::host::HostThreadMessage;
use plugin_host::main_thread::MainThread;
use plugin_host::plugin::{PluginStorage, PluginTimers};
use plugin_host::gui::{run_mode, GuiApi, GuiError, GuiExt, RunMode};
use plugin_host::worker::{load_state, save_state};
use plugin_host::timer::{TimerId, Timers};
use std::cell::RefCell;
use std::io::{Read, Write};

const SAVE_FAILS: u8 = 1;
const LOAD_FAILS: u8 = 2;

const SHOW_LOG: u8 = 0xFF;
const MS: u64 = 1_000_000;

struct Probe<const MODE: u8>;

struct ProbeMainThread<const MODE: u8> {
    log: RefCell<Vec<u8>>,
    state: RefCell<Vec<u8>>,
}

impl<const MODE: u8> Plugin for Probe<MODE> {
    type AudioProcessor<'a> = ();
    type Shared<'a> = ();
    type MainThread<'a> = ProbeMainThread<MODE>;

    fn declare_extensions(builder: &mut PluginExtensions<Self>, _shared: Option<&()>) {
        builder.register::<PluginState>();
        builder.register::<PluginTimer>();
    }
}

impl<const MODE: u8> PluginMainThread<'_, ()> for ProbeMainThread<MODE> {}

impl<const MODE: u8> DefaultPluginFactory for Probe<MODE> {
    fn get_descriptor() -> PluginDescriptor {
        PluginDescriptor::new("probe", "Probe")
    }

    fn new_shared(_host: HostSharedHandle<'_>) -> Result<(), PluginError> {
        Ok(())
    }

    fn new_main_thread<'a>(
        _host: HostMainThreadHandle<'a>,
        _shared: &'a (),
    ) -> Result<ProbeMainThread<MODE>, PluginError> {
        Ok(ProbeMainThread { log: RefCell::new(Vec::new()), state: RefCell::new(Vec::new()) })
    }
}

impl<const MODE: u8> PluginTimerImpl for ProbeMainThread<MODE> {
    fn on_timer(&self, timer_id: RawTimerId) {
        self.log.borrow_mut().push(b'T');
        self.log.borrow_mut().push(timer_id.0 as u8);
    }
}

impl<const MODE: u8> PluginStateImpl for ProbeMainThread<MODE> {
    fn save(&self, output: &mut OutputStream) -> Result<(), PluginError> {
        if MODE & SAVE_FAILS != 0 {
            return Err(PluginError::Message("cannot save"));
        }
        output.write_all(&self.state.borrow())?;
        Ok(())
    }

    fn load(&self, input: &mut InputStream) -> Result<(), PluginError> {
        if MODE & LOAD_FAILS != 0 {
            return Err(PluginError::Message("cannot load"));
        }
        let mut bytes = Vec::new();
        input.read_to_end(&mut bytes)?;
        if bytes == [SHOW_LOG] {
            bytes = self.log.borrow().clone();
        }
        *self.state.borrow_mut() = bytes;
        Ok(())
    }
}

struct ProbeHost;

impl HostHandlers for ProbeHost {
    type Shared<'a> = ();
    type MainThread<'a> = ();
    type AudioProcessor<'a> = ();
}

fn probe<const MODE: u8>() -> PluginInstance<ProbeHost> {
    let host_info = HostInfo::new("host", "tests", "https://example.com", "1.0").unwrap();
    let entry = PluginEntry::load_from_clack::<SinglePluginEntry<Probe<MODE>>>(c"").unwrap();
    PluginInstance::<ProbeHost>::new(|_| (), |_| (), &entry, c"probe", &host_info).unwrap()
}

fn log_of(handle: &mut PluginMainThreadHandle<'_>) -> Vec<u8> {
    let mut state = PluginStorage::new();
    assert!(load_state(&mut state, handle, &vec![SHOW_LOG]));
    match save_state::<()>(&mut state, handle) {
        Some(HostThreadMessage::State(log)) => log,
        other => panic!("no log: {:?}", other),
    }
}

#[test]
fn tick_timers_calls_plugin_for_each_fired_timer() {
    let mut instance = probe::<0>();
    let mut handle = instance.plugin_handle();
    let mut callbacks = PluginTimers::new();
    let mut timers = Timers::new();
    let first = timers.register_new(30 * MS);
    let second = timers.register_new(100 * MS);
    timers.tick_timers(&mut callbacks, &mut handle, 0);
    let mut log = log_of(&mut handle);
    log.sort_unstable();
    assert_eq!(log, vec![first.0 as u8, second.0 as u8, b'T', b'T']);
    timers.tick_timers(&mut callbacks, &mut handle, 31 * MS);
    let log = log_of(&mut handle);
    assert_eq!(log[4..].to_vec(), vec![b'T', first.0 as u8]);
    timers.tick_timers(&mut callbacks, &mut handle, 40 * MS);
    assert_eq!(log_of(&mut handle).len(), 6);
}

#[test]
fn deliver_ticks_calls_plugin_in_order() {
    let mut instance = probe::<0>();
    let mut handle = instance.plugin_handle();
    let mut callbacks = PluginTimers::new();
    Timers::deliver_ticks(&mut callbacks, &mut handle, &vec![TimerId(7), TimerId(3), TimerId(7)]);
    assert_eq!(log_of(&mut handle), vec![b'T', 7, b'T', 3, b'T', 7]);
    Timers::deliver_ticks(&mut callbacks, &mut handle, &Vec::new());
    assert_eq!(log_of(&mut handle).len(), 6);
}

#[test]
fn main_thread_remembers_extensions() {
    let mut instance = probe::<0>();
    let handle = instance.plugin_handle();
    let mut main_thread = MainThread::new();
    assert!(main_thread.gui().is_none());
    assert!(main_thread.timer_support().is_none());
    main_thread.register_timer(40).unwrap();
    assert!(main_thread.tick(0).is_empty());
    main_thread.initialized(handle.get_extension(), handle.get_extension());
    assert!(main_thread.gui().is_none());
    assert!(main_thread.timer_support().is_some());
    assert_eq!(main_thread.register_timer(40), Ok(TimerId(1)));
    assert_eq!(main_thread.tick(0), vec![TimerId(1)]);
}

#[test]
fn state_round_trip_keeps_bytes() {
    let mut instance = probe::<0>();
    let mut handle = instance.plugin_handle();
    let mut state = PluginStorage::new();
    let bytes: Vec<u8> = vec![0, 1, 2, 253, 254, 0, 0, 7];
    assert!(load_state(&mut state, &mut handle, &bytes));
    assert_eq!(save_state::<()>(&mut state, &mut handle), Some(HostThreadMessage::State(bytes)));
}

#[test]
fn state_round_trip_of_empty_and_large_state() {
    let mut instance = probe::<0>();
    let mut handle = instance.plugin_handle();
    let mut state = PluginStorage::new();
    assert!(load_state(&mut state, &mut handle, &Vec::new()));
    assert_eq!(save_state::<()>(&mut state, &mut handle), Some(HostThreadMessage::State(Vec::new())));
    let large: Vec<u8> = (0..100_000u32).map(|i| (i % 251) as u8).collect();
    assert!(load_state(&mut state, &mut handle, &large));
    assert_eq!(save_state::<()>(&mut state, &mut handle), Some(HostThreadMessage::State(large)));
}

#[test]
fn failed_save_gives_no_reply() {
    let mut instance = probe::<SAVE_FAILS>();
    let mut handle = instance.plugin_handle();
    let mut state = PluginStorage::new();
    assert_eq!(save_state::<()>(&mut state, &mut handle), None);
}

#[test]
fn failed_load_is_reported() {
    let mut instance = probe::<LOAD_FAILS>();
    let mut handle = instance.plugin_handle();
    let mut state = PluginStorage::new();
    assert!(!load_state(&mut state, &mut handle, &vec![1, 2, 3]));
}

#[test]
fn plugin_without_gui_negotiates_nothing() {
    let mut instance = probe::<0>();
    let mut handle = instance.plugin_handle();
    let mut gui = GuiExt::new(&mut handle);
    assert_eq!(gui.configuration(), None);
    assert_eq!(gui.needs_floating(), None);
    assert!(!gui.is_window_open());
    assert_eq!(run_mode(Some(&gui)), RunMode::Unsupported);
    gui.destroy(&mut handle);
    assert!(!gui.is_window_open());
    assert_eq!(gui.run_gui_embedded(), Err(GuiError::EmbeddingNotSupported));
    assert_eq!(gui.configuration(), None);
}

#[test]
fn plugin_without_gui_supports_no_api() {
    let mut instance = probe::<0>();
    let mut handle = instance.plugin_handle();
    for api in [GuiApi::Win32, GuiApi::Cocoa, GuiApi::X11, GuiApi::Wayland] {
        let gui = GuiExt::with_api(Some(api), &mut handle);
        assert_eq!(gui.configuration(), None);
    }
    let gui = GuiExt::with_api(None, &mut handle);
    assert_eq!(gui.configuration(), None);
    assert_eq!(run_mode(Some(&gui)), RunMode::Unsupported);
}

#[test]
fn each_instance_gets_its_own_calls() {
    let mut first = probe::<0>();
    let mut second = probe::<0>();
    let mut first_handle = first.plugin_handle();
    let mut second_handle = second.plugin_handle();
    let mut callbacks = PluginTimers::new();
    Timers::deliver_ticks(&mut callbacks, &mut first_handle, &vec![TimerId(1)]);
    Timers::deliver_ticks(&mut callbacks, &mut second_handle, &vec![TimerId(2), TimerId(3)]);
    assert_eq!(log_of(&mut first_handle), vec![b'T', 1]);
    assert_eq!(log_of(&mut second_handle), vec![b'T', 2, b'T', 3]);
    let mut storage = PluginStorage::new();
    assert!(load_state(&mut storage, &mut first_handle, &vec![5]));
    assert!(load_state(&mut storage, &mut second_handle, &vec![6, 7]));
    assert_eq!(save_state::<()>(&mut storage, &mut first_handle), Some(HostThreadMessage::State(vec![5])));
    assert_eq!(
        save_state::<()>(&mut storage, &mut second_handle),
        Some(HostThreadMessage::State(vec![6, 7]))
    );
}
