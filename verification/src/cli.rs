//! Command-line arguments, as values the rest of the crate reads.

use vstd::prelude::*;

verus! {

/// The parsed command line. Paths are held as text; the temperature is held as
/// the bit pattern of the `f32` the user gave (`f32::to_bits`).
#[derive(Debug, Clone)]
pub struct Args {
    /// Path to a GGUF model file. Overrides `$VISION_MODEL_PATH`.
    pub model: Option<String>,
    /// Path to the multimodal projector (mmproj) GGUF.
    pub mmproj: Option<String>,
    /// Output format: text (default) | json.
    pub format: Option<String>,
    /// Maximum number of output tokens.
    pub max_tokens: Option<u32>,
    /// Sampling temperature (default 0.0), as `f32` bits.
    pub temperature_bits: Option<u32>,
    /// Timeout in milliseconds (default 30000).
    pub timeout: Option<u64>,
    /// Use a named preset (overrides prompt + format if matched).
    pub preset: Option<String>,
    /// Second image (required for two_images presets like ui-compare).
    pub image_b: Option<String>,
    /// Force backend selection: auto | server | cli.
    pub backend: Option<String>,
    /// Launch a warm daemon (preloads model, listens on a unix socket).
    pub warm: bool,
    /// Stop a running warm daemon.
    pub stop: bool,
    /// Health check (warm daemon if running, otherwise backend).
    pub health: bool,
    /// Log verbosity (stderr): -v info, -vv debug, -vvv trace.
    pub verbose: u8,
    /// Internal: this process is the daemon launched by `--warm`.
    pub daemon_internal: bool,
    /// Image path.
    pub image: Option<String>,
    /// Prompt text (ignored when --preset supplies a prompt).
    pub prompt: Option<String>,
}

/// What one invocation does.
#[derive(Debug, Clone, Copy, PartialEq, Eq, Structural)]
pub enum Mode {
    /// Become the warm daemon.
    DaemonInternal,
    /// Launch the warm daemon.
    Warm,
    /// Stop the warm daemon.
    Stop,
    /// Report health.
    Health,
    /// Analyse an image.
    Inference,
}

/// The mode of an invocation: the internal daemon flag first, then `--warm`,
/// `--stop`, `--health`, and inference when none is set.
pub open spec fn mode_of(a: Args) -> Mode {
    if a.daemon_internal {
        Mode::DaemonInternal
    } else if a.warm {
        Mode::Warm
    } else if a.stop {
        Mode::Stop
    } else if a.health {
        Mode::Health
    } else {
        Mode::Inference
    }
}

impl Args {
    /// True when this invocation should perform inference (vs. control ops like
    /// `--warm` / `--stop` / `--health`).
    pub fn is_inference(&self) -> (b: bool)
        ensures
            b == (!self.warm && !self.stop && !self.health && !self.daemon_internal),
            b == (mode_of(*self) == Mode::Inference),
    {
        !self.warm && !self.stop && !self.health && !self.daemon_internal
    }

    /// The mode this invocation runs in.
    pub fn mode(&self) -> (m: Mode)
        ensures
            m == mode_of(*self),
    {
        if self.daemon_internal {
            Mode::DaemonInternal
        } else if self.warm {
            Mode::Warm
        } else if self.stop {
            Mode::Stop
        } else if self.health {
            Mode::Health
        } else {
            Mode::Inference
        }
    }
}

/// Every mode is chosen by its own flag: a control mode is only ever reached when
/// its flag is set, each flag set without the ones ranked above it (the internal
/// daemon flag, then `--warm`, `--stop`, `--health`) selects its own mode, and an
/// analysis runs exactly when no control flag is set.
pub proof fn law_mode_follows_flags(a: Args)
    ensures
        mode_of(a) == Mode::DaemonInternal ==> a.daemon_internal,
        mode_of(a) == Mode::Warm ==> a.warm,
        mode_of(a) == Mode::Stop ==> a.stop,
        mode_of(a) == Mode::Health ==> a.health,
        a.daemon_internal ==> mode_of(a) == Mode::DaemonInternal,
        a.warm && !a.daemon_internal ==> mode_of(a) == Mode::Warm,
        a.stop && !a.daemon_internal && !a.warm ==> mode_of(a) == Mode::Stop,
        a.health && !a.daemon_internal && !a.warm && !a.stop ==> mode_of(a) == Mode::Health,
        (mode_of(a) == Mode::Inference) <==> !(a.daemon_internal || a.warm || a.stop
            || a.health),
{
}

} // verus!
