//! The render state: surface size, configuration flag, active pipeline
//! variant and clear color, and the operations that the event loop drives.

use vstd::prelude::*;
use crate::math::{normalize, normalized, Ratio};
use crate::shader::ShaderInUse;
use crate::input::{code_command, command_of, key_command, key_of, Key, KeyCommand};
use crate::surface::{initial_config, negotiate_config, AcquireError, InitError, SurfaceConfig};

verus! {

/// A frame-clear value of four exact channels.
#[derive(Clone, Copy, Debug, PartialEq, Eq, Structural)]
pub struct Color {
    pub r: Ratio,
    pub g: Ratio,
    pub b: Ratio,
    pub a: Ratio,
}

impl Color {
    /// Every channel is a well-formed fraction and the color is opaque.
    pub open spec fn wf(self) -> bool {
        &&& self.r.wf()
        &&& self.g.wf()
        &&& self.b.wf()
        &&& self.a.wf()
        &&& self.a.is_whole(1)
    }
}

/// The color a fresh state clears to: (1/10, 3/10, 2/10, 1).
pub open spec fn initial_clear_color() -> Color {
    Color {
        r: Ratio { num: 1, den: 10 },
        g: Ratio { num: 3, den: 10 },
        b: Ratio { num: 2, den: 10 },
        a: Ratio { num: 1, den: 1 },
    }
}

/// The single render pass of a frame: clear the target, bind one pipeline,
/// draw `vertices` vertices in `instances` instances from no vertex buffer.
#[derive(Clone, Copy, Debug, PartialEq, Eq, Structural)]
pub struct RenderPass {
    pub clear_color: Color,
    pub pipeline: ShaderInUse,
    pub vertices: u32,
    pub instances: u32,
}

/// What one call of `render` asks of the window and the graphics device.
#[derive(Clone, Copy, Debug, PartialEq, Eq, Structural)]
pub struct Frame {
    /// Whether a further redraw is to be scheduled.
    pub request_redraw: bool,
    /// The pass to encode, submit and present once a surface texture has
    /// been acquired; `None` when the surface must not be touched.
    pub pass: Option<RenderPass>,
}

impl Frame {
    /// The result of rendering this frame when acquiring the surface texture
    /// ended in `acquired`: success without acquisition for a frame without
    /// a pass, else the acquisition's own result.
    pub open spec fn outcome(self, acquired: Result<(), AcquireError>) -> Result<
        (),
        AcquireError,
    > {
        match self.pass {
            None => Ok(()),
            Some(_) => acquired,
        }
    }

    /// How many command buffers reach the queue for this frame.
    pub open spec fn submissions(self, acquired: Result<(), AcquireError>) -> nat {
        if self.pass is Some && acquired is Ok {
            1
        } else {
            0
        }
    }

    /// Concludes a frame from the result of acquiring the surface texture:
    /// returns what rendering returns and the number of submissions made.
    /// An acquisition error is handed on untouched.
    pub fn finish(&self, acquired: Result<(), AcquireError>) -> (done: (
        Result<(), AcquireError>,
        u32,
    ))
        ensures
            done.0 == self.outcome(acquired),
            done.1 == self.submissions(acquired),
            self.pass is None ==> done.0 is Ok && done.1 == 0,
    {
        match self.pass {
            None => (Ok(()), 0),
            Some(_) => match acquired {
                Ok(_) => (acquired, 1),
                Err(_) => (acquired, 0),
            },
        }
    }
}

/// The mathematical content of a [`State`].
pub struct StateView {
    pub config: SurfaceConfig,
    pub configured: bool,
    pub shader: ShaderInUse,
    pub clear_color: Color,
}

impl StateView {
    /// A configured surface has non-zero dimensions, and the clear color is
    /// well formed and opaque.
    pub open spec fn wf(self) -> bool {
        &&& self.clear_color.wf()
        &&& self.configured ==> self.config.width > 0 && self.config.height > 0
    }

    /// The state right after construction with the given configuration.
    pub open spec fn initial(config: SurfaceConfig) -> StateView {
        StateView {
            config,
            configured: false,
            shader: ShaderInUse::Shader1,
            clear_color: initial_clear_color(),
        }
    }

    /// The state after a resize: reconfigured for strictly positive
    /// dimensions, unchanged when either is zero.
    pub open spec fn resized(self, width: u32, height: u32) -> StateView {
        if width > 0 && height > 0 {
            StateView {
                config: SurfaceConfig { width, height, ..self.config },
                configured: true,
                ..self
            }
        } else {
            self
        }
    }

    /// The surface configuration that a resize hands to the device, if any:
    /// the new size with the format and the modes that the state was
    /// constructed with.
    pub open spec fn reconfiguration(self, width: u32, height: u32) -> Option<SurfaceConfig> {
        if width > 0 && height > 0 {
            Some(SurfaceConfig { width, height, ..self.config })
        } else {
            None
        }
    }

    /// The state with the other pipeline variant active.
    pub open spec fn toggled(self) -> StateView {
        StateView { shader: self.shader.other(), ..self }
    }

    /// The state after the pointer moved to `(x, y)` over a viewport of
    /// `width` by `height` pixels: red and green take the normalized
    /// coordinates. A viewport without area leaves the color as it is.
    pub open spec fn pointer_moved(self, x: i64, y: i64, width: u32, height: u32) -> StateView {
        if width > 0 && height > 0 {
            StateView {
                clear_color: Color {
                    r: normalized(x, width),
                    g: normalized(y, height),
                    ..self.clear_color
                },
                ..self
            }
        } else {
            self
        }
    }

    /// The state after a key event: a press of Space toggles the pipeline,
    /// nothing else changes the state.
    pub open spec fn key_handled(self, key: Key, is_pressed: bool) -> StateView {
        if command_of(key, is_pressed) == KeyCommand::TogglePipeline {
            self.toggled()
        } else {
            self
        }
    }

    /// The frame that this state renders.
    pub open spec fn frame(self) -> Frame {
        Frame {
            request_redraw: true,
            pass: if self.configured {
                Some(
                    RenderPass {
                        clear_color: self.clear_color,
                        pipeline: self.shader,
                        vertices: 3,
                        instances: 1,
                    },
                )
            } else {
                None
            },
        }
    }
}

/// The render state. Its fields change only through its methods, which
/// keep [`StateView::wf`].
#[derive(Clone, Copy, Debug)]
pub struct State {
    config: SurfaceConfig,
    is_surface_configured: bool,
    shader_in_use: ShaderInUse,
    clear_color: Color,
}

impl View for State {
    type V = StateView;

    closed spec fn view(&self) -> StateView {
        StateView {
            config: self.config,
            configured: self.is_surface_configured,
            shader: self.shader_in_use,
            clear_color: self.clear_color,
        }
    }
}

impl State {
    /// What holds of every state at all times.
    #[verifier::type_invariant]
    pub open spec fn inv(self) -> bool {
        self@.wf()
    }

    /// Constructs the state for a window whose inner size is `width` by
    /// `height` from what its surface supports: not yet configured, first
    /// variant active, default clear color. Fails when the surface supports
    /// no format, no presentation mode or no alpha mode.
    pub fn new(
        width: u32,
        height: u32,
        formats: &Vec<wgpu::TextureFormat>,
        present_modes: &Vec<wgpu::PresentMode>,
        alpha_modes: &Vec<wgpu::CompositeAlphaMode>,
    ) -> (state: Result<State, InitError>)
        ensures
            state is Ok <==> (formats.len() > 0 && present_modes.len() > 0 && alpha_modes.len()
                > 0),
            match initial_config(width, height, formats@, present_modes@, alpha_modes@) {
                Ok(config) => state is Ok && state->Ok_0@ == StateView::initial(config)
                    && state->Ok_0@.wf(),
                Err(error) => state is Err && state->Err_0 == error,
            },
    {
        match negotiate_config(width, height, formats, present_modes, alpha_modes) {
            Ok(config) => Ok(State::with_config(config)),
            Err(error) => Err(error),
        }
    }

    /// The state for a surface configuration that has been negotiated.
    pub fn with_config(config: SurfaceConfig) -> (state: State)
        ensures
            state@ == StateView::initial(config),
            state@.wf(),
            !state@.configured,
    {
        State {
            config,
            is_surface_configured: false,
            shader_in_use: ShaderInUse::Shader1,
            clear_color: Color {
                r: Ratio { num: 1, den: 10 },
                g: Ratio { num: 3, den: 10 },
                b: Ratio { num: 2, den: 10 },
                a: Ratio { num: 1, den: 1 },
            },
        }
    }

    /// The surface configuration: the size last taken, with the format and
    /// the modes negotiated at construction.
    pub fn config(&self) -> (config: SurfaceConfig)
        ensures
            config == self@.config,
    {
        self.config
    }

    /// Whether the surface may be drawn to.
    pub fn is_surface_configured(&self) -> (configured: bool)
        ensures
            configured == self@.configured,
    {
        self.is_surface_configured
    }

    /// The pipeline variant that the next frame binds.
    pub fn shader_in_use(&self) -> (shader: ShaderInUse)
        ensures
            shader == self@.shader,
    {
        self.shader_in_use
    }

    /// The current frame-clear value.
    pub fn clear_color(&self) -> (color: Color)
        ensures
            color == self@.clear_color,
            color.wf(),
    {
        proof {
            use_type_invariant(self);
        }
        self.clear_color
    }

    /// Takes a new window size. With both dimensions positive the size is
    /// stored, the surface counts as configured and the configuration to
    /// apply to the device is returned. With a zero dimension nothing
    /// changes and nothing is returned. Format and modes never change.
    pub fn resize(&mut self, width: u32, height: u32) -> (reconfigure: Option<SurfaceConfig>)
        ensures
            final(self)@ == old(self)@.resized(width, height),
            final(self)@.wf(),
            reconfigure == old(self)@.reconfiguration(width, height),
            (width == 0 || height == 0) ==> final(self)@ == old(self)@ && reconfigure is None,
            (width > 0 && height > 0) ==> final(self)@.configured && final(self)@.config.width
                == width && final(self)@.config.height == height && reconfigure == Some(
                final(self)@.config,
            ),
            reconfigure matches Some(config) ==> config.width > 0 && config.height > 0,
            final(self)@.config.format == old(self)@.config.format,
            final(self)@.config.present_mode == old(self)@.config.present_mode,
            final(self)@.config.alpha_mode == old(self)@.config.alpha_mode,
    {
        proof {
            use_type_invariant(&*self);
        }
        if width > 0 && height > 0 {
            let config = SurfaceConfig {
                width,
                height,
                format: self.config.format,
                present_mode: self.config.present_mode,
                alpha_mode: self.config.alpha_mode,
            };
            *self = State {
                config,
                is_surface_configured: true,
                shader_in_use: self.shader_in_use,
                clear_color: self.clear_color,
            };
            Some(config)
        } else {
            None
        }
    }

    /// Flips the active pipeline variant; the next frame binds the other
    /// pipeline.
    pub fn toggle_pipeline(&mut self)
        ensures
            final(self)@ == old(self)@.toggled(),
            final(self)@.wf(),
            final(self)@.shader != old(self)@.shader,
    {
        proof {
            use_type_invariant(&*self);
        }
        self.shader_in_use = self.shader_in_use.toggled();
    }

    /// Carries out a command: toggles the pipeline for `TogglePipeline`, and
    /// returns whether the event loop is to exit.
    fn run_command(&mut self, command: KeyCommand) -> (exit: bool)
        ensures
            final(self)@ == (if command == KeyCommand::TogglePipeline {
                old(self)@.toggled()
            } else {
                old(self)@
            }),
            final(self)@.wf(),
            exit == (command == KeyCommand::Exit),
    {
        proof {
            use_type_invariant(&*self);
        }
        match command {
            KeyCommand::Exit => true,
            KeyCommand::TogglePipeline => {
                self.toggle_pipeline();
                false
            },
            KeyCommand::Ignore => false,
        }
    }

    /// Handles a key event whose key has been classified: a press of Space
    /// toggles the pipeline, a press of Escape asks to exit (the result is
    /// then `true`), and every other event changes nothing.
    pub fn handle_classified_key(&mut self, key: Key, is_pressed: bool) -> (exit: bool)
        ensures
            final(self)@ == old(self)@.key_handled(key, is_pressed),
            final(self)@.wf(),
            exit == (command_of(key, is_pressed) == KeyCommand::Exit),
            exit == (key == Key::Escape && is_pressed),
    {
        self.run_command(key_command(key, is_pressed))
    }

    /// Handles a key event as the window system reports it: a press of the
    /// Space key toggles the pipeline, a press of the Escape key asks to exit
    /// (the result is then `true`), and every other event changes nothing.
    pub fn handle_key(&mut self, code: winit::keyboard::KeyCode, is_pressed: bool) -> (exit:
        bool)
        ensures
            final(self)@ == old(self)@.key_handled(key_of(code), is_pressed),
            final(self)@.wf(),
            exit == (command_of(key_of(code), is_pressed) == KeyCommand::Exit),
    {
        self.run_command(code_command(code, is_pressed))
    }

    /// Steers the clear color by the pointer: red and green become the
    /// normalized pointer coordinates over the viewport, blue and alpha
    /// stay. A viewport without area leaves the color unchanged.
    pub fn update_clear_color(&mut self, x: i64, y: i64, width: u32, height: u32)
        ensures
            final(self)@ == old(self)@.pointer_moved(x, y, width, height),
            final(self)@.wf(),
            final(self)@.clear_color.b == old(self)@.clear_color.b,
            final(self)@.clear_color.a == old(self)@.clear_color.a,
    {
        proof {
            use_type_invariant(&*self);
        }
        if width > 0 && height > 0 {
            let (r, g) = normalize(x, y, width, height);
            self.clear_color = Color { r, g, b: self.clear_color.b, a: self.clear_color.a };
        }
    }

    /// Per-frame hook that runs before each render; it changes nothing.
    pub fn update(&mut self)
        ensures
            final(self)@ == old(self)@,
    {
    }

    /// Plans one frame. A redraw is always requested. An unconfigured
    /// surface is not touched; a configured one gets a single pass that
    /// clears to the clear color and draws three vertices with the pipeline
    /// of the active variant.
    pub fn render(&self) -> (frame: Frame)
        ensures
            frame == self@.frame(),
            self@.wf(),
            frame.request_redraw,
            !self@.configured ==> frame.pass is None,
            self@.configured ==> frame.pass == Some(
                RenderPass {
                    clear_color: self@.clear_color,
                    pipeline: self@.shader,
                    vertices: 3,
                    instances: 1,
                },
            ),
    {
        proof {
            use_type_invariant(self);
        }
        let pass = if self.is_surface_configured {
            Some(
                RenderPass {
                    clear_color: self.clear_color,
                    pipeline: self.shader_in_use,
                    vertices: 3,
                    instances: 1,
                },
            )
        } else {
            None
        };
        Frame { request_redraw: true, pass }
    }
}

/// A resize with a zero dimension leaves every state as it is.
pub proof fn lemma_degenerate_resize_is_noop(s: StateView, width: u32, height: u32)
    requires
        width == 0 || height == 0,
    ensures
        s.resized(width, height) == s,
        s.reconfiguration(width, height) is None,
{
}

/// Of two successive resizes with positive dimensions the later one
/// decides: the state is the one that the second resize alone gives, and
/// the surface is configured.
pub proof fn lemma_latest_resize_wins(s: StateView, w1: u32, h1: u32, w2: u32, h2: u32)
    requires
        w2 > 0,
        h2 > 0,
    ensures
        s.resized(w1, h1).resized(w2, h2) == s.resized(w2, h2),
        s.resized(w1, h1).resized(w2, h2).configured,
        s.resized(w1, h1).resized(w2, h2).config == (SurfaceConfig {
            width: w2,
            height: h2,
            ..s.config
        }),
{
}

/// Toggling the pipeline twice restores the state.
pub proof fn lemma_toggle_twice(s: StateView)
    ensures
        s.toggled().toggled() == s,
        s.toggled().shader != s.shader,
{
}

/// Until a resize with positive dimensions has happened, rendering succeeds
/// and submits nothing, whatever acquisition would have returned.
pub proof fn lemma_unconfigured_frame_is_idle(s: StateView, acquired: Result<(), AcquireError>)
    requires
        !s.configured,
    ensures
        s.frame().pass is None,
        s.frame().outcome(acquired) is Ok,
        s.frame().submissions(acquired) == 0,
        s.frame().request_redraw,
{
}

/// Every operation keeps a well-formed state well formed.
pub proof fn lemma_operations_keep_wf(s: StateView, x: i64, y: i64, width: u32, height: u32)
    requires
        s.wf(),
    ensures
        StateView::initial(s.config).wf(),
        s.resized(width, height).wf(),
        s.toggled().wf(),
        s.pointer_moved(x, y, width, height).wf(),
{
}

} // verus!
