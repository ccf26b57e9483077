//! The plugin's window: which windowing API and mode to use, and how the
//! window is opened, resized and closed.

use crate::plugin::{default_gui_api, gui_api_uses_logical_size, GuiCall, PluginWindow};
use clack_host::plugin::PluginMainThreadHandle;
use vstd::prelude::*;

verus! {

/// A windowing API that a plugin window can be shown with.
#[derive(Clone, Copy, Debug, PartialEq, Eq, Structural)]
pub enum GuiApi {
    Win32,
    Cocoa,
    X11,
    Wayland,
}

/// How a plugin window is set up: with which API, and floating on its own or
/// embedded in a window of the host.
#[derive(Clone, Copy, Debug, PartialEq, Eq, Structural)]
pub struct GuiConfiguration {
    pub api_type: GuiApi,
    pub is_floating: bool,
}

/// The size of a plugin window, in the pixel unit of its windowing API.
#[derive(Clone, Copy, Debug, PartialEq, Eq, Structural)]
pub struct GuiSize {
    pub width: u32,
    pub height: u32,
}

/// A window size together with its unit, as the windowing toolkit wants it.
#[derive(Clone, Copy, Debug, PartialEq, Eq, Structural)]
pub enum WindowSize {
    /// In logical pixels, which the toolkit scales to the display.
    Logical(GuiSize),
    /// In physical pixels of the display.
    Physical(GuiSize),
}

/// What can go wrong with the plugin's window.
#[derive(Clone, Copy, Debug, PartialEq, Eq, Structural)]
pub enum GuiError {
    /// The plugin failed to create its GUI.
    CreateError,
    /// The plugin failed to show its GUI.
    ShowError,
    /// The plugin failed to set the size of its window.
    SetSizeError,
    /// The window would have to be embedded in a window of the host, which
    /// this host cannot do.
    EmbeddingNotSupported,
}

/// How the worker runs a plugin.
#[derive(Clone, Copy, Debug, PartialEq, Eq, Structural)]
pub enum RunMode {
    /// Without a window: the plugin offers no GUI.
    Headless,
    /// With the plugin's own floating window.
    Floating,
    /// With the plugin's window embedded in a window of the host.
    Embedded,
    /// The plugin offers a GUI, but none that this platform can show.
    Unsupported,
}

/// The way to run a plugin, given what was negotiated for its window:
/// `None` if it offers no GUI at all, else the outcome of the negotiation.
pub open spec fn mode_for(negotiation: Option<Option<GuiConfiguration>>) -> RunMode {
    match negotiation {
        None => RunMode::Headless,
        Some(None) => RunMode::Unsupported,
        Some(Some(configuration)) => if configuration.is_floating {
            RunMode::Floating
        } else {
            RunMode::Embedded
        },
    }
}

/// Whether sizes of `api` are in logical pixels. Only Cocoa's are.
pub open spec fn uses_logical_size(api: GuiApi) -> bool {
    api == GuiApi::Cocoa
}

/// `size` in the unit of `api`.
pub open spec fn in_window_units(api: GuiApi, size: GuiSize) -> WindowSize {
    if uses_logical_size(api) {
        WindowSize::Logical(size)
    } else {
        WindowSize::Physical(size)
    }
}

/// The configuration that negotiation settles on, given the platform's API
/// (if it has one) and what the plugin answers for that API embedded and
/// floating. Embedded is taken if the plugin supports it; floating only if it
/// does not.
pub open spec fn negotiated(api: Option<GuiApi>, embedded: bool, floating: bool) -> Option<
    GuiConfiguration,
> {
    match api {
        None => None,
        Some(api_type) => if embedded {
            Some(GuiConfiguration { api_type, is_floating: false })
        } else if floating {
            Some(GuiConfiguration { api_type, is_floating: true })
        } else {
            None
        },
    }
}

/// The size that stands when the plugin was asked and `answer` came back:
/// the plugin's size if it gave one, else the requested one.
pub open spec fn answer_or_requested(answer: Option<GuiSize>, requested: GuiSize) -> GuiSize {
    match answer {
        Some(size) => size,
        None => requested,
    }
}

/// A plugin that supports its window both embedded and floating gets it
/// embedded: floating is only the fallback.
pub proof fn lemma_embedded_is_preferred(api_type: GuiApi, floating: bool)
    ensures
        negotiated(Some(api_type), true, floating) == Some(
            GuiConfiguration { api_type, is_floating: false },
        ),
        negotiated(Some(api_type), false, true) == Some(
            GuiConfiguration { api_type, is_floating: true },
        ),
        negotiated(Some(api_type), false, false) is None,
        negotiated(None, true, floating) is None,
{
}

/// When the plugin reports a size, that size stands whatever was requested.
pub proof fn lemma_reported_size_wins(reported: GuiSize, first: GuiSize, second: GuiSize)
    ensures
        answer_or_requested(Some(reported), first) == reported,
        answer_or_requested(Some(reported), first) == answer_or_requested(Some(reported), second),
{
}

/// Settles on a configuration from the platform's API and the plugin's two answers.
pub fn select_configuration(api: Option<GuiApi>, embedded: bool, floating: bool) -> (configuration:
    Option<GuiConfiguration>)
    ensures
        configuration == negotiated(api, embedded, floating),
{
    match api {
        None => None,
        Some(api_type) => if embedded {
            Some(GuiConfiguration { api_type, is_floating: false })
        } else if floating {
            Some(GuiConfiguration { api_type, is_floating: true })
        } else {
            None
        },
    }
}

/// How to run a plugin whose window, if it offers one, is `gui`.
pub fn run_mode(gui: Option<&GuiExt>) -> (mode: RunMode)
    ensures
        mode == mode_for(
            match gui {
                Some(gui) => Some(gui.negotiation()),
                None => None,
            },
        ),
{
    match gui {
        None => RunMode::Headless,
        Some(gui) => match gui.needs_floating() {
            None => RunMode::Unsupported,
            Some(true) => RunMode::Floating,
            Some(false) => RunMode::Embedded,
        },
    }
}

/// The plugin's answer if there is one, else the requested size.
pub fn size_or_requested(answer: Option<GuiSize>, requested: GuiSize) -> (size: GuiSize)
    ensures
        size == answer_or_requested(answer, requested),
{
    match answer {
        Some(size) => size,
        None => requested,
    }
}

/// Whether `api` counts sizes in logical pixels.
pub fn uses_logical_pixels(api: GuiApi) -> (logical: bool)
    ensures
        logical == uses_logical_size(api),
{
    gui_api_uses_logical_size(api)
}

/// `size` in the unit that `api` counts pixels in.
pub fn window_size(api: GuiApi, size: GuiSize) -> (window: WindowSize)
    ensures
        window == in_window_units(api, size),
{
    if gui_api_uses_logical_size(api) {
        WindowSize::Logical(size)
    } else {
        WindowSize::Physical(size)
    }
}

/// The calls that negotiation makes, with the plugin's answers: none without
/// an API for the platform; else one question for the embedded window,
/// answered `embedded`, and, unless the plugin said yes to that, one for the
/// floating window, answered `floating`.
pub open spec fn negotiation_calls(api: Option<GuiApi>, embedded: bool, floating: bool) -> Seq<
    GuiCall,
> {
    match api {
        None => seq![],
        Some(api_type) => if embedded {
            seq![
                GuiCall::IsApiSupported {
                    configuration: GuiConfiguration { api_type, is_floating: false },
                    supported: true,
                },
            ]
        } else {
            seq![
                GuiCall::IsApiSupported {
                    configuration: GuiConfiguration { api_type, is_floating: false },
                    supported: false,
                },
                GuiCall::IsApiSupported {
                    configuration: GuiConfiguration { api_type, is_floating: true },
                    supported: floating,
                },
            ]
        },
    }
}

/// The title that the host gives a floating window: none, which is the zero
/// byte that ends it and nothing before.
pub open spec fn empty_title() -> Seq<u8> {
    seq![0u8]
}

/// The calls that opening a floating window makes, with the plugin's
/// answers: the window is created, which the plugin answers with `created`,
/// and if it was created, given the empty title and shown, which the plugin
/// answers with `shown`.
pub open spec fn opening_calls(configuration: GuiConfiguration, created: bool, shown: bool) -> Seq<
    GuiCall,
> {
    if created {
        seq![
            GuiCall::Create { configuration, created: true },
            GuiCall::SuggestTitle { title: empty_title() },
            GuiCall::Show { shown },
        ]
    } else {
        seq![GuiCall::Create { configuration, created: false }]
    }
}

/// What opening a floating window comes to, given the plugin's answers: it
/// is open if the plugin created and showed it; else the error names the
/// step that failed.
pub open spec fn opening_outcome(created: bool, shown: bool) -> Result<(), GuiError> {
    if !created {
        Err(GuiError::CreateError)
    } else if !shown {
        Err(GuiError::ShowError)
    } else {
        Ok(())
    }
}

/// The calls that a resize makes when `size` is requested, with the plugin's
/// answers. A window of fixed size is only asked for its size, which the
/// plugin answers with `answer`. A resizeable window is asked what it makes
/// of `size`, which the plugin answers with `answer`, and is set to the size
/// that stands, which the plugin answers with `set`.
pub open spec fn resizing_calls(
    is_resizeable: bool,
    size: GuiSize,
    answer: Option<GuiSize>,
    set: bool,
) -> Seq<GuiCall> {
    if is_resizeable {
        seq![
            GuiCall::AdjustSize { size, adjusted: answer },
            GuiCall::SetSize { size: answer_or_requested(answer, size), set },
        ]
    } else {
        seq![GuiCall::GetSize { reported: answer }]
    }
}

/// What a resize comes to, given the plugin's answers: the size that stands,
/// in the unit of `api`, unless the window is resizeable and the plugin
/// failed to set it.
pub open spec fn resizing_outcome(
    api: GuiApi,
    is_resizeable: bool,
    size: GuiSize,
    answer: Option<GuiSize>,
    set: bool,
) -> Result<WindowSize, GuiError> {
    if is_resizeable && !set {
        Err(GuiError::SetSizeError)
    } else {
        Ok(in_window_units(api, answer_or_requested(answer, size)))
    }
}

/// A resize of a window of fixed size never tells the plugin a size,
/// whatever is requested: it asks for the plugin's size and nothing else, and
/// the size that the plugin reports is the size that stands.
pub proof fn lemma_fixed_window_is_never_set(
    api: GuiApi,
    size: GuiSize,
    other: GuiSize,
    reported: GuiSize,
    set: bool,
)
    ensures
        resizing_calls(false, size, Some(reported), set) == seq![
            GuiCall::GetSize { reported: Some(reported) },
        ],
        resizing_outcome(api, false, size, Some(reported), set) == Ok::<WindowSize, GuiError>(
            in_window_units(api, reported),
        ),
        resizing_outcome(api, false, size, Some(reported), set) == resizing_outcome(
            api,
            false,
            other,
            Some(reported),
            set,
        ),
{
}

/// A floating window is open after `open_floating` exactly when the plugin
/// created it and showed it; a window that could not be created is never
/// shown.
pub proof fn lemma_open_needs_create_and_show(
    configuration: GuiConfiguration,
    created: bool,
    shown: bool,
)
    ensures
        opening_outcome(created, shown) is Ok <==> created && shown,
        opening_outcome(created, shown) == Err::<(), GuiError>(GuiError::CreateError) <==> !created,
        opening_outcome(created, shown) == Err::<(), GuiError>(GuiError::ShowError) <==> created
            && !shown,
        !created ==> opening_calls(configuration, created, shown).len() == 1,
{
}

/// The window of one plugin instance.
pub struct GuiExt {
    plugin_gui: PluginWindow,
    configuration: Option<GuiConfiguration>,
    is_open: bool,
    is_resizeable: bool,
}

impl GuiExt {
    /// What was negotiated with the plugin, or `None` if the plugin and the
    /// platform have no configuration in common.
    pub closed spec fn negotiation(&self) -> Option<GuiConfiguration> {
        self.configuration
    }

    /// The calls made into the plugin's GUI extension so far, oldest first,
    /// each with the plugin's answer.
    pub closed spec fn calls(&self) -> Seq<GuiCall> {
        self.plugin_gui.calls()
    }

    /// Whether the window is open: opened, and not yet destroyed.
    pub closed spec fn is_open(&self) -> bool {
        self.is_open
    }

    /// Whether the window can be resized by the host.
    pub closed spec fn is_resizeable(&self) -> bool {
        self.is_resizeable
    }

    /// Negotiates the window's configuration with the plugin, for the
    /// windowing API of this platform. See `with_api`.
    pub fn new(instance: &mut PluginMainThreadHandle<'_>) -> (gui: Self)
        ensures
            !gui.is_open(),
            !gui.is_resizeable(),
            exists|api: Option<GuiApi>, embedded: bool, floating: bool|
                {
                    &&& gui.negotiation() == #[trigger] negotiated(api, embedded, floating)
                    &&& gui.calls() == negotiation_calls(api, embedded, floating)
                },
    {
        Self::with_api(default_gui_api(), instance)
    }

    /// Negotiates the window's configuration with the plugin, for the
    /// windowing API `api`. The window is closed and counts as fixed in size.
    ///
    /// The plugin is asked about the embedded window first, and about the
    /// floating window only if it does not support the embedded one. The
    /// outcome is what `negotiated` makes of the plugin's answers.
    pub fn with_api(api: Option<GuiApi>, instance: &mut PluginMainThreadHandle<'_>) -> (gui: Self)
        ensures
            !gui.is_open(),
            !gui.is_resizeable(),
            exists|embedded: bool, floating: bool|
                {
                    &&& gui.negotiation() == #[trigger] negotiated(api, embedded, floating)
                    &&& gui.calls() == negotiation_calls(api, embedded, floating)
                },
    {
        let mut window = PluginWindow::new();
        let configuration = Self::negotiate_configuration(api, &mut window, instance);
        proof {
            let (embedded, floating) = choose|embedded: bool, floating: bool|
                {
                    &&& configuration == #[trigger] negotiated(api, embedded, floating)
                    &&& window.calls() == Seq::<GuiCall>::empty() + negotiation_calls(
                        api,
                        embedded,
                        floating,
                    )
                };
            assert(window.calls() =~= negotiation_calls(api, embedded, floating));
        }
        Self { plugin_gui: window, configuration, is_open: false, is_resizeable: false }
    }

    fn negotiate_configuration(
        api: Option<GuiApi>,
        window: &mut PluginWindow,
        plugin: &mut PluginMainThreadHandle<'_>,
    ) -> (configuration: Option<GuiConfiguration>)
        ensures
            exists|embedded: bool, floating: bool|
                {
                    &&& configuration == #[trigger] negotiated(api, embedded, floating)
                    &&& final(window).calls() == old(window).calls() + negotiation_calls(
                        api,
                        embedded,
                        floating,
                    )
                },
    {
        match api {
            None => {
                proof {
                    assert(negotiated(api, false, false) is None);
                    assert(window.calls() =~= old(window).calls() + negotiation_calls(
                        api,
                        false,
                        false,
                    ));
                }
                None
            },
            Some(api_type) => {
                let embedded = window.is_api_supported(
                    plugin,
                    GuiConfiguration { api_type, is_floating: false },
                );
                let floating = if embedded {
                    false
                } else {
                    window.is_api_supported(
                        plugin,
                        GuiConfiguration { api_type, is_floating: true },
                    )
                };
                let configuration = select_configuration(api, embedded, floating);
                proof {
                    assert(configuration == negotiated(api, embedded, floating));
                    assert(window.calls() =~= old(window).calls() + negotiation_calls(
                        api,
                        embedded,
                        floating,
                    ));
                }
                configuration
            },
        }
    }

    /// `size` in the unit of the negotiated API.
    pub fn gui_size_to_winit_size(&self, size: GuiSize) -> (window: WindowSize)
        requires
            self.negotiation() is Some,
        ensures
            window == in_window_units(self.negotiation()->0.api_type, size),
    {
        match self.configuration {
            Some(configuration) => window_size(configuration.api_type, size),
            None => WindowSize::Physical(size),
        }
    }

    /// Whether the negotiated window floats; `None` without a configuration.
    pub fn needs_floating(&self) -> (floating: Option<bool>)
        ensures
            floating == match self.negotiation() {
                Some(configuration) => Some(configuration.is_floating),
                None => None,
            },
    {
        match self.configuration {
            Some(configuration) => Some(configuration.is_floating),
            None => None,
        }
    }

    /// What was negotiated with the plugin, if anything.
    pub fn configuration(&self) -> (configuration: Option<GuiConfiguration>)
        ensures
            configuration == self.negotiation(),
    {
        self.configuration
    }

    /// Whether the window is open.
    pub fn is_window_open(&self) -> (open: bool)
        ensures
            open == self.is_open(),
    {
        self.is_open
    }

    /// Creates the plugin's floating window, gives it an empty title and
    /// shows it. The window is open afterwards exactly when the plugin
    /// created it and showed it. If the plugin fails to create it, nothing
    /// further is asked of the plugin; the error names the step that failed,
    /// and the window stays as it was.
    pub fn open_floating(&mut self, plugin: &mut PluginMainThreadHandle<'_>) -> (opened: Result<
        (),
        GuiError,
    >)
        requires
            old(self).negotiation() is Some,
            old(self).negotiation()->0.is_floating,
        ensures
            final(self).negotiation() == old(self).negotiation(),
            final(self).is_resizeable() == old(self).is_resizeable(),
            final(self).is_open() == (opened is Ok || old(self).is_open()),
            exists|created: bool, shown: bool|
                {
                    &&& final(self).calls() == old(self).calls() + #[trigger] opening_calls(
                        old(self).negotiation()->0,
                        created,
                        shown,
                    )
                    &&& opened == opening_outcome(created, shown)
                },
    {
        let configuration = match self.configuration {
            Some(configuration) => configuration,
            None => { return Err(GuiError::CreateError); },
        };
        if !self.plugin_gui.create(plugin, configuration) {
            proof {
                assert(self.calls() =~= old(self).calls() + opening_calls(
                    configuration,
                    false,
                    false,
                ));
                assert(opening_outcome(false, false) == Err::<(), GuiError>(
                    GuiError::CreateError,
                ));
            }
            return Err(GuiError::CreateError);
        }
        let mut title: Vec<u8> = Vec::new();
        title.push(0);
        proof {
            assert(title@ =~= empty_title());
        }
        self.plugin_gui.suggest_title(plugin, &title);
        let shown = self.plugin_gui.show(plugin);
        proof {
            assert(self.calls() =~= old(self).calls() + opening_calls(configuration, true, shown));
        }
        if !shown {
            proof {
                assert(opening_outcome(true, shown) == Err::<(), GuiError>(GuiError::ShowError));
            }
            return Err(GuiError::ShowError);
        }
        self.is_open = true;
        proof {
            assert(self.calls() =~= old(self).calls() + opening_calls(configuration, true, true));
            assert(opening_outcome(true, true) == Ok::<(), GuiError>(()));
        }
        Ok(())
    }

    /// Settles the window's size after `size` was requested, and answers the
    /// size that stands, in the unit of the negotiated API.
    ///
    /// A window of fixed size is never told a size: the plugin is asked for
    /// its own, which stands if it gives one, else the requested size stands.
    /// A resizeable window is set to what the plugin makes of `size`; only
    /// that step can fail.
    pub fn resize(&mut self, plugin: &mut PluginMainThreadHandle<'_>, size: GuiSize) -> (resized:
        Result<WindowSize, GuiError>)
        requires
            old(self).negotiation() is Some,
        ensures
            final(self).negotiation() == old(self).negotiation(),
            final(self).is_resizeable() == old(self).is_resizeable(),
            final(self).is_open() == old(self).is_open(),
            exists|answer: Option<GuiSize>, set: bool|
                {
                    &&& final(self).calls() == old(self).calls() + #[trigger] resizing_calls(
                        old(self).is_resizeable(),
                        size,
                        answer,
                        set,
                    )
                    &&& resized == resizing_outcome(
                        old(self).negotiation()->0.api_type,
                        old(self).is_resizeable(),
                        size,
                        answer,
                        set,
                    )
                },
            !old(self).is_resizeable() ==> resized is Ok,
    {
        let ghost api = self.configuration->0.api_type;
        if !self.is_resizeable {
            let reported = self.plugin_gui.get_size(plugin);
            let forced_size = size_or_requested(reported, size);
            let window = self.gui_size_to_winit_size(forced_size);
            proof {
                assert(self.calls() =~= old(self).calls() + resizing_calls(
                    false,
                    size,
                    reported,
                    true,
                ));
                assert(Ok::<WindowSize, GuiError>(window) == resizing_outcome(
                    api,
                    false,
                    size,
                    reported,
                    true,
                ));
            }
            return Ok(window);
        }
        let adjusted = self.plugin_gui.adjust_size(plugin, size);
        let working_size = size_or_requested(adjusted, size);
        let set = self.plugin_gui.set_size(plugin, working_size);
        proof {
            assert(self.calls() =~= old(self).calls() + resizing_calls(true, size, adjusted, set));
        }
        if !set {
            proof {
                assert(Err::<WindowSize, GuiError>(GuiError::SetSizeError) == resizing_outcome(
                    api,
                    true,
                    size,
                    adjusted,
                    set,
                ));
            }
            return Err(GuiError::SetSizeError);
        }
        let window = self.gui_size_to_winit_size(working_size);
        proof {
            assert(Ok::<WindowSize, GuiError>(window) == resizing_outcome(
                api,
                true,
                size,
                adjusted,
                set,
            ));
        }
        Ok(window)
    }

    /// Destroys the window if it is open. On a closed window this does
    /// nothing: the plugin is not called.
    pub fn destroy(&mut self, plugin: &mut PluginMainThreadHandle<'_>)
        ensures
            !final(self).is_open(),
            final(self).negotiation() == old(self).negotiation(),
            final(self).is_resizeable() == old(self).is_resizeable(),
            final(self).calls() == if old(self).is_open() {
                old(self).calls().push(GuiCall::Destroy)
            } else {
                old(self).calls()
            },
    {
        if self.is_open {
            self.plugin_gui.destroy(plugin);
            self.is_open = false;
        }
    }

    /// Running with an embedded window is not supported: the answer is always
    /// that error, and nothing is changed.
    pub fn run_gui_embedded(&mut self) -> (outcome: Result<(), GuiError>)
        ensures
            outcome == Err::<(), GuiError>(GuiError::EmbeddingNotSupported),
            *final(self) == *old(self),
    {
        Err(GuiError::EmbeddingNotSupported)
    }
}

} // verus!
