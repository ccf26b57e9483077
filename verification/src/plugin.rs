//! The calls into the plugin and into the binding layer around it.
//!
//! Every call takes the handle of the plugin instance and nothing else of the
//! plugin: the extension that a call goes to is looked up on that very handle,
//! so a call never reaches an extension of another instance. A plugin that
//! does not offer the extension is not called at all.
//!
//! Everything a plugin answers is up to the plugin. The contracts of the
//! calls promise nothing of an answer. What the host does control is which
//! calls it makes, with what, and what it makes of the answers. The calls go
//! through `PluginWindow`, `PluginTimers` and `PluginStorage`, which keep a
//! record of every call made through them together with its answer, so that
//! the functions that use them can say exactly which calls they make and how
//! their results follow from the answers.

use crate::gui::{GuiApi, GuiConfiguration, GuiSize};
use crate::timer::TimerId;
use vstd::prelude::*;

verus! {

/// The plugin's side of the timer extension: an opaque handle.
#[verifier::external_type_specification]
#[verifier::external_body]
pub struct ExPluginTimer(clack_extensions::timer::PluginTimer);

/// The plugin's side of the GUI extension: an opaque handle.
#[verifier::external_type_specification]
#[verifier::external_body]
pub struct ExPluginGui(clack_extensions::gui::PluginGui);

/// The main-thread handle of a live plugin instance: an opaque handle.
#[verifier::external_type_specification]
#[verifier::external_body]
pub struct ExPluginMainThreadHandle<'a>(clack_host::plugin::PluginMainThreadHandle<'a>);

/// Looks up the timer extension with `PluginSharedHandle::get_extension` and
/// calls `PluginTimer::on_timer` on it: tells the plugin that its timer `id`
/// ticked. `None` if the plugin offers no timer extension.
#[verifier::external_body]
fn plugin_on_timer(plugin: &mut clack_host::plugin::PluginMainThreadHandle<'_>, id: TimerId) -> (
    called: Option<()>) {
    let timer_ext: clack_extensions::timer::PluginTimer = plugin.get_extension()?;
    timer_ext.on_timer(plugin, clack_extensions::timer::TimerId(id.0));
    Some(())
}

/// Calls `GuiApiType::default_for_current_platform`: the windowing API of the
/// platform that this build targets, if it has one and it is one of the four
/// that `GuiApi` names. Which one is a matter of the build target, so nothing
/// is claimed of the answer.
#[verifier::external_body]
pub(crate) fn default_gui_api() -> (api: Option<GuiApi>) {
    let raw = clack_extensions::gui::GuiApiType::default_for_current_platform()?;
    if raw == clack_extensions::gui::GuiApiType::WIN32 {
        Some(GuiApi::Win32)
    } else if raw == clack_extensions::gui::GuiApiType::COCOA {
        Some(GuiApi::Cocoa)
    } else if raw == clack_extensions::gui::GuiApiType::X11 {
        Some(GuiApi::X11)
    } else if raw == clack_extensions::gui::GuiApiType::WAYLAND {
        Some(GuiApi::Wayland)
    } else {
        None
    }
}

/// Calls `GuiApiType::uses_logical_size` on the constant that stands for
/// `api`. It answers `true` for Cocoa and `false` for every other API.
#[verifier::external_body]
pub(crate) fn gui_api_uses_logical_size(api: GuiApi) -> (logical: bool)
    ensures
        logical == (api == GuiApi::Cocoa),
{
    let raw = match api {
        GuiApi::Win32 => clack_extensions::gui::GuiApiType::WIN32,
        GuiApi::Cocoa => clack_extensions::gui::GuiApiType::COCOA,
        GuiApi::X11 => clack_extensions::gui::GuiApiType::X11,
        GuiApi::Wayland => clack_extensions::gui::GuiApiType::WAYLAND,
    };
    raw.uses_logical_size()
}

/// Looks up the GUI extension and calls `PluginGui::is_api_supported`: asks
/// the plugin whether it can show its window with `configuration`. `None` if
/// the plugin offers no GUI extension.
#[verifier::external_body]
fn plugin_gui_is_api_supported(
    plugin: &mut clack_host::plugin::PluginMainThreadHandle<'_>,
    configuration: GuiConfiguration,
) -> (supported: Option<bool>) {
    let gui: clack_extensions::gui::PluginGui = plugin.get_extension()?;
    let api_type = match configuration.api_type {
        GuiApi::Win32 => clack_extensions::gui::GuiApiType::WIN32,
        GuiApi::Cocoa => clack_extensions::gui::GuiApiType::COCOA,
        GuiApi::X11 => clack_extensions::gui::GuiApiType::X11,
        GuiApi::Wayland => clack_extensions::gui::GuiApiType::WAYLAND,
    };
    let is_floating = configuration.is_floating;
    let raw = clack_extensions::gui::GuiConfiguration { api_type, is_floating };
    Some(gui.is_api_supported(plugin, raw))
}

/// Looks up the GUI extension and calls `PluginGui::create`: asks the plugin
/// to allocate its GUI with `configuration`. Answers whether the plugin
/// reported success; `None` if the plugin offers no GUI extension.
#[verifier::external_body]
fn plugin_gui_create(
    plugin: &mut clack_host::plugin::PluginMainThreadHandle<'_>,
    configuration: GuiConfiguration,
) -> (created: Option<bool>) {
    let gui: clack_extensions::gui::PluginGui = plugin.get_extension()?;
    let api_type = match configuration.api_type {
        GuiApi::Win32 => clack_extensions::gui::GuiApiType::WIN32,
        GuiApi::Cocoa => clack_extensions::gui::GuiApiType::COCOA,
        GuiApi::X11 => clack_extensions::gui::GuiApiType::X11,
        GuiApi::Wayland => clack_extensions::gui::GuiApiType::WAYLAND,
    };
    let is_floating = configuration.is_floating;
    let raw = clack_extensions::gui::GuiConfiguration { api_type, is_floating };
    Some(gui.create(plugin, raw).is_ok())
}

/// Whether `title` is a title that can be handed to the plugin: bytes that
/// end in a zero byte and hold no other.
pub open spec fn is_title(title: Seq<u8>) -> bool {
    &&& title.len() > 0
    &&& title[title.len() - 1] == 0
    &&& forall|i: int| 0 <= i < title.len() - 1 ==> title[i] != 0
}

/// Looks up the GUI extension and calls `PluginGui::suggest_title` with
/// `title`, which holds the title's bytes and the zero byte that ends them.
/// `None` if the plugin offers no GUI extension.
#[verifier::external_body]
fn plugin_gui_suggest_title(
    plugin: &mut clack_host::plugin::PluginMainThreadHandle<'_>,
    title: &Vec<u8>,
) -> (called: Option<()>)
    requires
        is_title(title@),
{
    let gui: clack_extensions::gui::PluginGui = plugin.get_extension()?;
    let title = core::ffi::CStr::from_bytes_with_nul(title).ok()?;
    gui.suggest_title(plugin, title);
    Some(())
}

/// Looks up the GUI extension and calls `PluginGui::show`. Answers whether
/// the plugin reported success; `None` if the plugin offers no GUI extension.
#[verifier::external_body]
fn plugin_gui_show(plugin: &mut clack_host::plugin::PluginMainThreadHandle<'_>) -> (shown: Option<
    bool,
>) {
    let gui: clack_extensions::gui::PluginGui = plugin.get_extension()?;
    Some(gui.show(plugin).is_ok())
}

/// Looks up the GUI extension and calls `PluginGui::destroy`: the plugin
/// frees its GUI. `None` if the plugin offers no GUI extension.
#[verifier::external_body]
fn plugin_gui_destroy(plugin: &mut clack_host::plugin::PluginMainThreadHandle<'_>) -> (called:
    Option<()>) {
    let gui: clack_extensions::gui::PluginGui = plugin.get_extension()?;
    gui.destroy(plugin);
    Some(())
}

/// Looks up the GUI extension and calls `PluginGui::get_size`: the size the
/// plugin reports for its window, if it reports one. `None` if the plugin
/// offers no GUI extension.
#[verifier::external_body]
fn plugin_gui_get_size(plugin: &mut clack_host::plugin::PluginMainThreadHandle<'_>) -> (size:
    Option<Option<GuiSize>>) {
    let gui: clack_extensions::gui::PluginGui = plugin.get_extension()?;
    Some(gui.get_size(plugin).map(|s| GuiSize { width: s.width, height: s.height }))
}

/// Looks up the GUI extension and calls `PluginGui::adjust_size`: the size
/// closest to `size` that the plugin accepts, if it answers. `None` if the
/// plugin offers no GUI extension.
#[verifier::external_body]
fn plugin_gui_adjust_size(
    plugin: &mut clack_host::plugin::PluginMainThreadHandle<'_>,
    size: GuiSize,
) -> (adjusted: Option<Option<GuiSize>>) {
    let gui: clack_extensions::gui::PluginGui = plugin.get_extension()?;
    let raw = clack_extensions::gui::GuiSize { width: size.width, height: size.height };
    Some(gui.adjust_size(plugin, raw).map(|s| GuiSize { width: s.width, height: s.height }))
}

/// Looks up the GUI extension and calls `PluginGui::set_size`. Answers
/// whether the plugin reported success; `None` if the plugin offers no GUI
/// extension.
#[verifier::external_body]
fn plugin_gui_set_size(
    plugin: &mut clack_host::plugin::PluginMainThreadHandle<'_>,
    size: GuiSize,
) -> (set: Option<bool>) {
    let gui: clack_extensions::gui::PluginGui = plugin.get_extension()?;
    let raw = clack_extensions::gui::GuiSize { width: size.width, height: size.height };
    Some(gui.set_size(plugin, raw).is_ok())
}

/// Looks up the state extension and calls `PluginState::save` into a fresh
/// buffer: the bytes that the plugin wrote, or `None` inside if it reported
/// failure. `None` outside if the plugin offers no state extension.
#[verifier::external_body]
fn plugin_state_save(plugin: &mut clack_host::plugin::PluginMainThreadHandle<'_>) -> (saved:
    Option<Option<Vec<u8>>>) {
    let state_ext: clack_extensions::state::PluginState = plugin.get_extension()?;
    let mut bytes = Vec::new();
    Some(state_ext.save(plugin, &mut bytes).ok().map(|()| bytes))
}

/// Looks up the state extension and calls `PluginState::load` on a reader
/// over `bytes`. Answers whether the plugin reported success; `None` if the
/// plugin offers no state extension.
#[verifier::external_body]
fn plugin_state_load(
    plugin: &mut clack_host::plugin::PluginMainThreadHandle<'_>,
    bytes: &Vec<u8>,
) -> (loaded: Option<bool>) {
    let state_ext: clack_extensions::state::PluginState = plugin.get_extension()?;
    let mut reader = std::io::Cursor::new(bytes);
    Some(state_ext.load(plugin, &mut reader).is_ok())
}

/// One call that the host made into the plugin's GUI extension, with what
/// the host learned from it. A plugin without a GUI extension supports
/// nothing, creates, shows and sets nothing, and reports no size.
pub enum GuiCall {
    /// The plugin was asked whether it supports this configuration.
    IsApiSupported { configuration: GuiConfiguration, supported: bool },
    /// The plugin was asked to create its GUI with this configuration.
    Create { configuration: GuiConfiguration, created: bool },
    /// The plugin was given this title for its window.
    SuggestTitle { title: Seq<u8> },
    /// The plugin was asked to show its window.
    Show { shown: bool },
    /// The plugin was asked for the size of its window.
    GetSize { reported: Option<GuiSize> },
    /// The plugin was asked what it makes of `size`.
    AdjustSize { size: GuiSize, adjusted: Option<GuiSize> },
    /// The plugin was told to give its window the size `size`.
    SetSize { size: GuiSize, set: bool },
    /// The plugin was told to free its GUI.
    Destroy,
}

/// The way to the plugin's GUI extension, with a record of the calls made.
pub struct PluginWindow {
    calls: Ghost<Seq<GuiCall>>,
}

impl PluginWindow {
    /// The calls made so far, oldest first, each with its answer.
    pub closed spec fn calls(&self) -> Seq<GuiCall> {
        self.calls@
    }

    /// A way to the GUI extension through which no call has been made yet.
    pub fn new() -> (window: Self)
        ensures
            window.calls() == Seq::<GuiCall>::empty(),
    {
        Self { calls: Ghost(Seq::empty()) }
    }

    /// Asks the plugin whether it can show its window with `configuration`.
    pub fn is_api_supported(
        &mut self,
        plugin: &mut clack_host::plugin::PluginMainThreadHandle<'_>,
        configuration: GuiConfiguration,
    ) -> (supported: bool)
        ensures
            final(self).calls() == old(self).calls().push(
                GuiCall::IsApiSupported { configuration, supported },
            ),
    {
        let supported = match plugin_gui_is_api_supported(plugin, configuration) {
            Some(supported) => supported,
            None => false,
        };
        self.calls = Ghost(self.calls@.push(GuiCall::IsApiSupported { configuration, supported }));
        supported
    }

    /// Asks the plugin to allocate its GUI with `configuration`. Answers
    /// whether it did.
    pub fn create(
        &mut self,
        plugin: &mut clack_host::plugin::PluginMainThreadHandle<'_>,
        configuration: GuiConfiguration,
    ) -> (created: bool)
        ensures
            final(self).calls() == old(self).calls().push(
                GuiCall::Create { configuration, created },
            ),
    {
        let created = match plugin_gui_create(plugin, configuration) {
            Some(created) => created,
            None => false,
        };
        self.calls = Ghost(self.calls@.push(GuiCall::Create { configuration, created }));
        created
    }

    /// Suggests `title` for the plugin's window: the title's bytes and the
    /// zero byte that ends them.
    pub fn suggest_title(
        &mut self,
        plugin: &mut clack_host::plugin::PluginMainThreadHandle<'_>,
        title: &Vec<u8>,
    )
        requires
            is_title(title@),
        ensures
            final(self).calls() == old(self).calls().push(GuiCall::SuggestTitle { title: title@ }),
    {
        let _ = plugin_gui_suggest_title(plugin, title);
        self.calls = Ghost(self.calls@.push(GuiCall::SuggestTitle { title: title@ }));
    }

    /// Asks the plugin to show its window. Answers whether it did.
    pub fn show(&mut self, plugin: &mut clack_host::plugin::PluginMainThreadHandle<'_>) -> (shown:
        bool)
        ensures
            final(self).calls() == old(self).calls().push(GuiCall::Show { shown }),
    {
        let shown = match plugin_gui_show(plugin) {
            Some(shown) => shown,
            None => false,
        };
        self.calls = Ghost(self.calls@.push(GuiCall::Show { shown }));
        shown
    }

    /// Asks the plugin for the size of its window.
    pub fn get_size(&mut self, plugin: &mut clack_host::plugin::PluginMainThreadHandle<'_>) -> (
        reported: Option<GuiSize>)
        ensures
            final(self).calls() == old(self).calls().push(GuiCall::GetSize { reported }),
    {
        let reported = match plugin_gui_get_size(plugin) {
            Some(reported) => reported,
            None => None,
        };
        self.calls = Ghost(self.calls@.push(GuiCall::GetSize { reported }));
        reported
    }

    /// Asks the plugin for the size closest to `size` that it accepts.
    pub fn adjust_size(
        &mut self,
        plugin: &mut clack_host::plugin::PluginMainThreadHandle<'_>,
        size: GuiSize,
    ) -> (adjusted: Option<GuiSize>)
        ensures
            final(self).calls() == old(self).calls().push(GuiCall::AdjustSize { size, adjusted }),
    {
        let adjusted = match plugin_gui_adjust_size(plugin, size) {
            Some(adjusted) => adjusted,
            None => None,
        };
        self.calls = Ghost(self.calls@.push(GuiCall::AdjustSize { size, adjusted }));
        adjusted
    }

    /// Tells the plugin to give its window the size `size`. Answers whether it did.
    pub fn set_size(
        &mut self,
        plugin: &mut clack_host::plugin::PluginMainThreadHandle<'_>,
        size: GuiSize,
    ) -> (set: bool)
        ensures
            final(self).calls() == old(self).calls().push(GuiCall::SetSize { size, set }),
    {
        let set = match plugin_gui_set_size(plugin, size) {
            Some(set) => set,
            None => false,
        };
        self.calls = Ghost(self.calls@.push(GuiCall::SetSize { size, set }));
        set
    }

    /// Tells the plugin to free its GUI.
    pub fn destroy(&mut self, plugin: &mut clack_host::plugin::PluginMainThreadHandle<'_>)
        ensures
            final(self).calls() == old(self).calls().push(GuiCall::Destroy),
    {
        let _ = plugin_gui_destroy(plugin);
        self.calls = Ghost(self.calls@.push(GuiCall::Destroy));
    }
}

/// The way to the plugin's timer extension, with a record of the callbacks
/// handed to it.
pub struct PluginTimers {
    delivered: Ghost<Seq<TimerId>>,
}

impl PluginTimers {
    /// The timers whose callbacks were handed to the plugin so far, oldest
    /// first. A plugin without a timer extension is handed them in vain.
    pub closed spec fn delivered(&self) -> Seq<TimerId> {
        self.delivered@
    }

    /// A way to the timer extension through which nothing has been delivered yet.
    pub fn new() -> (timers: Self)
        ensures
            timers.delivered() == Seq::<TimerId>::empty(),
    {
        Self { delivered: Ghost(Seq::empty()) }
    }

    /// Tells the plugin that its timer `id` ticked.
    pub fn on_timer(
        &mut self,
        plugin: &mut clack_host::plugin::PluginMainThreadHandle<'_>,
        id: TimerId,
    )
        ensures
            final(self).delivered() == old(self).delivered().push(id),
    {
        let _ = plugin_on_timer(plugin, id);
        self.delivered = Ghost(self.delivered@.push(id));
    }
}

/// One call that the host made into the plugin's state extension, with what
/// the host learned from it. A plugin without a state extension saves
/// nothing and loads nothing.
pub enum StateCall {
    /// The plugin was asked to save its state, and wrote these bytes, or failed.
    Save { written: Option<Seq<u8>> },
    /// The plugin was handed these bytes to load, and took them or not.
    Load { bytes: Seq<u8>, loaded: bool },
}

/// The bytes that a save wrote, if it wrote any.
pub open spec fn written_by(saved: Option<Vec<u8>>) -> Option<Seq<u8>> {
    match saved {
        Some(bytes) => Some(bytes@),
        None => None,
    }
}

/// The way to the plugin's state extension, with a record of the calls made.
pub struct PluginStorage {
    calls: Ghost<Seq<StateCall>>,
}

impl PluginStorage {
    /// The calls made so far, oldest first, each with its answer.
    pub closed spec fn calls(&self) -> Seq<StateCall> {
        self.calls@
    }

    /// A way to the state extension through which no call has been made yet.
    pub fn new() -> (storage: Self)
        ensures
            storage.calls() == Seq::<StateCall>::empty(),
    {
        Self { calls: Ghost(Seq::empty()) }
    }

    /// Asks the plugin to save its state. Answers the bytes that it wrote,
    /// or `None` if it failed.
    pub fn save(&mut self, plugin: &mut clack_host::plugin::PluginMainThreadHandle<'_>) -> (saved:
        Option<Vec<u8>>)
        ensures
            final(self).calls() == old(self).calls().push(
                StateCall::Save { written: written_by(saved) },
            ),
    {
        let saved = match plugin_state_save(plugin) {
            Some(saved) => saved,
            None => None,
        };
        self.calls = Ghost(self.calls@.push(StateCall::Save { written: written_by(saved) }));
        saved
    }

    /// Hands the plugin `bytes` to load. Answers whether it took them.
    pub fn load(
        &mut self,
        plugin: &mut clack_host::plugin::PluginMainThreadHandle<'_>,
        bytes: &Vec<u8>,
    ) -> (loaded: bool)
        ensures
            final(self).calls() == old(self).calls().push(
                StateCall::Load { bytes: bytes@, loaded },
            ),
    {
        let loaded = match plugin_state_load(plugin, bytes) {
            Some(loaded) => loaded,
            None => false,
        };
        self.calls = Ghost(self.calls@.push(StateCall::Load { bytes: bytes@, loaded }));
        loaded
    }
}

} // verus!
