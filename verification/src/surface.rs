//! The presentation-surface model: capability-driven configuration,
//! the surface lifecycle, and the policy for transient frame-acquisition
//! failures.
//!
//! The GPU backend is an opaque capability provider. What this core reads
//! of it — which offered formats are SRGB, the offered present and alpha
//! modes — arrives here as plain values; the layer that owns the real
//! device converts in both directions.

use vstd::prelude::*;

verus! {

/// One presentation format the backend offers: whether it is SRGB, and an
/// opaque code identifying the concrete backend format.
#[derive(Clone, Copy, Debug, PartialEq)]
pub struct SurfaceFormat {
    pub srgb: bool,
    pub code: u32,
}

/// What the backend reports the surface supports. Present and alpha modes
/// are opaque codes; only their order matters here (the first is taken).
#[derive(Clone, Debug, PartialEq)]
pub struct SurfaceCapabilities {
    pub formats: Vec<SurfaceFormat>,
    pub present_modes: Vec<u32>,
    pub alpha_modes: Vec<u32>,
}

/// The current configuration of the surface: chosen format, size in
/// physical pixels, and the chosen present and alpha modes.
#[derive(Clone, Copy, Debug, PartialEq)]
pub struct SurfaceConfiguration {
    pub format: SurfaceFormat,
    pub width: u32,
    pub height: u32,
    pub present_mode: u32,
    pub alpha_mode: u32,
}

/// Lifecycle of a configured surface: it may suspend and come back, and
/// destruction is final.
#[derive(Clone, Copy, Debug, PartialEq, Eq, Structural)]
pub enum SurfaceLifecycle {
    Configured,
    Suspended,
    Destroyed,
}

/// The index of the first SRGB format at or after position `i`, if any.
pub open spec fn first_srgb_from(s: Seq<SurfaceFormat>, i: int) -> Option<int>
    decreases s.len() - i,
{
    if i < 0 || i >= s.len() {
        None
    } else if s[i].srgb {
        Some(i)
    } else {
        first_srgb_from(s, i + 1)
    }
}

/// The format selection rule: the first SRGB-capable format if the list
/// offers one, else the first entry of the list.
pub open spec fn chosen_format(s: Seq<SurfaceFormat>) -> SurfaceFormat
    recommends
        s.len() > 0,
{
    match first_srgb_from(s, 0) {
        Some(i) => s[i],
        None => s[0],
    }
}

/// Picks the presentation format from a non-empty capability list:
/// the first SRGB format if one exists, else the first entry.
pub fn choose_format(formats: &Vec<SurfaceFormat>) -> (r: SurfaceFormat)
    requires
        formats@.len() > 0,
    ensures
        r == chosen_format(formats@),
{
    let n = formats.len();
    let mut i: usize = 0;
    while i < n
        invariant
            0 <= i <= n,
            n == formats@.len(),
            n > 0,
            first_srgb_from(formats@, 0) == first_srgb_from(formats@, i as int),
        decreases n - i,
    {
        if formats[i].srgb {
            assert(first_srgb_from(formats@, i as int) == Some(i as int));
            return formats[i];
        }
        i = i + 1;
    }
    assert(first_srgb_from(formats@, 0) == None::<int>);
    formats[0]
}

proof fn lemma_first_srgb_some(s: Seq<SurfaceFormat>, i: int)
    requires
        0 <= i <= s.len(),
        exists|j: int| i <= j < s.len() && (#[trigger] s[j]).srgb,
    ensures
        first_srgb_from(s, i).is_some(),
        s[first_srgb_from(s, i).unwrap()].srgb,
    decreases s.len() - i,
{
    let j = choose|j: int| i <= j < s.len() && (#[trigger] s[j]).srgb;
    if !s[i].srgb {
        assert(i + 1 <= j < s.len() && s[j].srgb);
        lemma_first_srgb_some(s, i + 1);
    }
}

proof fn lemma_first_srgb_none(s: Seq<SurfaceFormat>, i: int)
    requires
        0 <= i <= s.len(),
        forall|j: int| i <= j < s.len() ==> !(#[trigger] s[j]).srgb,
    ensures
        first_srgb_from(s, i).is_none(),
    decreases s.len() - i,
{
    if i < s.len() {
        lemma_first_srgb_none(s, i + 1);
    }
}

/// Format selection law, first half: given a capability list containing at
/// least one SRGB format, the chosen format is SRGB.
pub proof fn lemma_srgb_preferred(s: Seq<SurfaceFormat>)
    requires
        s.len() > 0,
        exists|j: int| 0 <= j < s.len() && (#[trigger] s[j]).srgb,
    ensures
        chosen_format(s).srgb,
{
    lemma_first_srgb_some(s, 0);
}

/// Format selection law, second half: given a capability list with no SRGB
/// format, the chosen format equals the first entry of the list.
pub proof fn lemma_srgb_fallback(s: Seq<SurfaceFormat>)
    requires
        s.len() > 0,
        forall|j: int| 0 <= j < s.len() ==> !(#[trigger] s[j]).srgb,
    ensures
        chosen_format(s) == s[0],
{
    lemma_first_srgb_none(s, 0);
}

/// The configuration built from a capability report and the window's
/// physical size: chosen format, the window's size, and the first offered
/// present and alpha modes.
pub open spec fn spec_configuration(
    caps: SurfaceCapabilities,
    width: u32,
    height: u32,
) -> SurfaceConfiguration
    recommends
        caps.formats@.len() > 0,
        caps.present_modes@.len() > 0,
        caps.alpha_modes@.len() > 0,
{
    SurfaceConfiguration {
        format: chosen_format(caps.formats@),
        width,
        height,
        present_mode: caps.present_modes@[0],
        alpha_mode: caps.alpha_modes@[0],
    }
}

/// The model of the presentation surface: its configuration and lifecycle
/// state. Invariant kept by the shell: the configured size always equals
/// the owning window's physical size before a frame is rendered.
#[derive(Clone, Copy, Debug, PartialEq)]
pub struct SurfaceContext {
    pub config: SurfaceConfiguration,
    pub lifecycle: SurfaceLifecycle,
}

impl SurfaceContext {
    /// Configures a surface from the backend's capability report and the
    /// window's physical size. The capability lists must be non-empty:
    /// a backend that offers none is no compatible backend at all, which
    /// callers treat as fatal before coming here.
    pub fn configure(caps: &SurfaceCapabilities, width: u32, height: u32) -> (s: SurfaceContext)
        requires
            caps.formats@.len() > 0,
            caps.present_modes@.len() > 0,
            caps.alpha_modes@.len() > 0,
        ensures
            s.lifecycle == SurfaceLifecycle::Configured,
            s.config == spec_configuration(*caps, width, height),
    {
        let format = choose_format(&caps.formats);
        let present_mode = caps.present_modes[0];
        let alpha_mode = caps.alpha_modes[0];
        SurfaceContext {
            config: SurfaceConfiguration { format, width, height, present_mode, alpha_mode },
            lifecycle: SurfaceLifecycle::Configured,
        }
    }

    /// Resizes the configuration to the window's new physical size. Must be
    /// called whenever that size changes, before the next frame is drawn;
    /// everything but the size is kept.
    pub fn reconfigure(&mut self, width: u32, height: u32)
        requires
            old(self).lifecycle == SurfaceLifecycle::Configured,
        ensures
            final(self).config.width == width,
            final(self).config.height == height,
            final(self).config.format == old(self).config.format,
            final(self).config.present_mode == old(self).config.present_mode,
            final(self).config.alpha_mode == old(self).config.alpha_mode,
            final(self).lifecycle == SurfaceLifecycle::Configured,
    {
        self.config.width = width;
        self.config.height = height;
    }

    /// True exactly when the configured size equals the given window size;
    /// a frame may only be rendered when it does.
    pub fn size_matches(&self, width: u32, height: u32) -> (b: bool)
        ensures
            b == (self.config.width == width && self.config.height == height),
    {
        self.config.width == width && self.config.height == height
    }

    /// Suspends a configured surface; the configuration is kept.
    pub fn suspend(&mut self)
        requires
            old(self).lifecycle == SurfaceLifecycle::Configured,
        ensures
            final(self).lifecycle == SurfaceLifecycle::Suspended,
            final(self).config == old(self).config,
    {
        self.lifecycle = SurfaceLifecycle::Suspended;
    }

    /// Brings a suspended surface back to the configured state.
    pub fn resume(&mut self)
        requires
            old(self).lifecycle == SurfaceLifecycle::Suspended,
        ensures
            final(self).lifecycle == SurfaceLifecycle::Configured,
            final(self).config == old(self).config,
    {
        self.lifecycle = SurfaceLifecycle::Configured;
    }

    /// Destroys the surface; destruction is final.
    pub fn destroy(&mut self)
        requires
            old(self).lifecycle != SurfaceLifecycle::Destroyed,
        ensures
            final(self).lifecycle == SurfaceLifecycle::Destroyed,
            final(self).config == old(self).config,
    {
        self.lifecycle = SurfaceLifecycle::Destroyed;
    }
}

/// How acquiring the current frame can fail.
#[derive(Clone, Copy, Debug, PartialEq, Eq, Structural)]
pub enum SurfaceError {
    /// The surface was lost; reconfigure and retry.
    Lost,
    /// The configuration no longer matches the surface; reconfigure and retry.
    Outdated,
    /// Acquisition timed out; retry without reconfiguring.
    Timeout,
    /// The backend is out of memory; fatal.
    OutOfMemory,
}

/// What to do after a failed frame acquisition.
#[derive(Clone, Copy, Debug, PartialEq, Eq, Structural)]
pub enum RetryAction {
    /// Reconfigure the surface, then try to acquire again.
    ReconfigureAndRetry,
    /// Try to acquire again as-is.
    Retry,
    /// Give up: escalate to a fatal error.
    Fatal,
}

/// The retry policy: `Lost` and `Outdated` reconfigure and retry, `Timeout`
/// retries as-is, each only while fewer than `max_attempts` retries have
/// been made; `OutOfMemory` is always fatal.
pub open spec fn spec_retry_action(err: SurfaceError, attempts: u32, max_attempts: u32) -> RetryAction {
    match err {
        SurfaceError::OutOfMemory => RetryAction::Fatal,
        SurfaceError::Lost | SurfaceError::Outdated => if attempts < max_attempts {
            RetryAction::ReconfigureAndRetry
        } else {
            RetryAction::Fatal
        },
        SurfaceError::Timeout => if attempts < max_attempts {
            RetryAction::Retry
        } else {
            RetryAction::Fatal
        },
    }
}

/// Decides how to react to a failed frame acquisition, after `attempts`
/// retries have already been made of at most `max_attempts`.
pub fn retry_action(err: &SurfaceError, attempts: u32, max_attempts: u32) -> (a: RetryAction)
    ensures
        a == spec_retry_action(*err, attempts, max_attempts),
{
    match err {
        SurfaceError::OutOfMemory => RetryAction::Fatal,
        SurfaceError::Lost | SurfaceError::Outdated => if attempts < max_attempts {
            RetryAction::ReconfigureAndRetry
        } else {
            RetryAction::Fatal
        },
        SurfaceError::Timeout => if attempts < max_attempts {
            RetryAction::Retry
        } else {
            RetryAction::Fatal
        },
    }
}

} // verus!
