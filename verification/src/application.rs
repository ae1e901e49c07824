//! Choosing the platform an application runs on and recording how it is
//! configured before launch: accessibility, assets and resource budget.
//! Launching and running the application is the platform's work.

use vstd::prelude::*;
use crate::resource_profile::{AppProfile, AppResourceProfile, desktop_budget, profile_budget};

verus! {

/// The operating system the application is built for.
#[derive(Clone, Copy, Debug, PartialEq, Eq, Structural)]
pub enum TargetOs {
    Linux,
    FreeBsd,
    MacOs,
    Windows,
}

/// The platform backends.
#[derive(Clone, Copy, Debug, PartialEq, Eq, Structural)]
pub enum PlatformBackend {
    /// Wayland or X11, chosen by the Linux backend at start-up.
    Linux,
    MacOs,
    Windows,
}

/// A platform to create: its backend and whether it runs without windows.
#[derive(Clone, Copy, Debug, PartialEq, Eq, Structural)]
pub struct PlatformChoice {
    pub backend: PlatformBackend,
    pub headless: bool,
}

/// The backend of an operating system.
pub open spec fn backend_of(os: TargetOs) -> PlatformBackend {
    match os {
        TargetOs::Linux => PlatformBackend::Linux,
        TargetOs::FreeBsd => PlatformBackend::Linux,
        TargetOs::MacOs => PlatformBackend::MacOs,
        TargetOs::Windows => PlatformBackend::Windows,
    }
}

/// Whether the backend of an operating system honours a headless request:
/// the Windows backend ignores it and always creates a windowed platform.
pub open spec fn honours_headless(os: TargetOs) -> bool {
    os != TargetOs::Windows
}

/// The current desktop platform of the operating system: Linux and FreeBSD
/// use the Linux backend. The Windows backend ignores `headless`.
pub fn current_platform(os: TargetOs, headless: bool) -> (r: PlatformChoice)
    ensures
        r == (PlatformChoice { backend: backend_of(os), headless: headless && honours_headless(os) }),
{
    match os {
        TargetOs::Linux => PlatformChoice { backend: PlatformBackend::Linux, headless },
        TargetOs::FreeBsd => PlatformChoice { backend: PlatformBackend::Linux, headless },
        TargetOs::MacOs => PlatformChoice { backend: PlatformBackend::MacOs, headless },
        TargetOs::Windows => PlatformChoice { backend: PlatformBackend::Windows, headless: false },
    }
}

/// The platform whose background executor stands alone: the current
/// platform, asked for headless.
pub fn background_executor(os: TargetOs) -> (r: PlatformChoice)
    ensures
        r == (PlatformChoice { backend: backend_of(os), headless: honours_headless(os) }),
{
    current_platform(os, true)
}

/// Where an application's platform comes from.
#[derive(Clone, Copy, Debug, PartialEq, Eq)]
pub enum PlatformSource<P> {
    /// The current desktop platform.
    Current(PlatformChoice),
    /// A platform given by the caller.
    Provided(P),
}

/// The configuration an application is launched with.
pub struct Application<P, A> {
    pub platform: PlatformSource<P>,
    /// Whether accessibility integration is enabled.
    pub accessible: bool,
    /// The asset source, when one was given.
    pub assets: Option<A>,
    /// The resource budget.
    pub resource_profile: AppResourceProfile,
}

/// An application on the graphical current platform.
pub fn application<P, A>(os: TargetOs) -> (r: Application<P, A>)
    ensures
        r.platform == PlatformSource::<P>::Current(
            PlatformChoice { backend: backend_of(os), headless: false },
        ),
        r.accessible,
        r.assets is None,
        r.resource_profile == desktop_budget(),
{
    Application::with_platform_source(PlatformSource::Current(current_platform(os, false)))
}

/// An application on the current platform asked for headless (which the
/// Windows backend ignores).
pub fn headless<P, A>(os: TargetOs) -> (r: Application<P, A>)
    ensures
        r.platform == PlatformSource::<P>::Current(
            PlatformChoice { backend: backend_of(os), headless: honours_headless(os) },
        ),
        r.accessible,
        r.assets is None,
        r.resource_profile == desktop_budget(),
{
    Application::with_platform_source(PlatformSource::Current(current_platform(os, true)))
}

impl<P, A> Application<P, A> {
    fn with_platform_source(platform: PlatformSource<P>) -> (r: Self)
        ensures
            r.platform == platform,
            r.accessible,
            r.assets is None,
            r.resource_profile == desktop_budget(),
    {
        Application {
            platform,
            accessible: true,
            assets: None,
            resource_profile: AppResourceProfile::desktop(),
        }
    }

    /// An application on the graphical current platform, accessible, with
    /// no assets and the desktop budget.
    pub fn new(os: TargetOs) -> (r: Self)
        ensures
            r.platform == PlatformSource::<P>::Current(
                PlatformChoice { backend: backend_of(os), headless: false },
            ),
            r.accessible,
            r.assets is None,
            r.resource_profile == desktop_budget(),
    {
        application(os)
    }

    /// An application on the current platform asked for headless (which the
/// Windows backend ignores).
    pub fn headless(os: TargetOs) -> (r: Self)
        ensures
            r.platform == PlatformSource::<P>::Current(
                PlatformChoice { backend: backend_of(os), headless: honours_headless(os) },
            ),
            r.accessible,
            r.assets is None,
            r.resource_profile == desktop_budget(),
    {
        headless(os)
    }

    /// An application on a platform given by the caller.
    pub fn with_platform(platform: P) -> (r: Self)
        ensures
            r.platform == PlatformSource::<P>::Provided(platform),
            r.accessible,
            r.assets is None,
            r.resource_profile == desktop_budget(),
    {
        Application::with_platform_source(PlatformSource::Provided(platform))
    }

    /// The same application with accessibility integration forcibly disabled.
    pub fn inaccessible(self) -> (r: Self)
        ensures
            r.platform == self.platform,
            !r.accessible,
            r.assets == self.assets,
            r.resource_profile == self.resource_profile,
    {
        Application { accessible: false, ..self }
    }

    /// The same application with the given asset source.
    pub fn with_assets(self, asset_source: A) -> (r: Self)
        ensures
            r.platform == self.platform,
            r.accessible == self.accessible,
            r.assets == Some(asset_source),
            r.resource_profile == self.resource_profile,
    {
        Application { assets: Some(asset_source), ..self }
    }

    /// The same application with the budget of the given profile.
    pub fn with_resource_profile(self, profile: AppProfile) -> (r: Self)
        ensures
            r.platform == self.platform,
            r.accessible == self.accessible,
            r.assets == self.assets,
            r.resource_profile == profile_budget(profile),
    {
        let resource_profile = profile.to_resource_profile();
        Application { resource_profile, ..self }
    }
}

/// What the platform can do for visual tests.
#[derive(Clone, Copy, Debug, PartialEq, Eq, Structural)]
pub struct VisualTestCapabilities {
    /// Windows are drawn by the real renderer.
    pub real_renderer: bool,
    /// Screenshots of windows can be taken.
    pub screenshot_capture: bool,
}

/// A visual test context on the graphical current platform.
pub struct RealVisualTestContext<A> {
    pub platform: PlatformChoice,
    pub asset_source: Option<A>,
}

impl<A> RealVisualTestContext<A> {
    /// A context with the default empty asset source.
    pub fn new(os: TargetOs) -> (r: Self)
        ensures
            r.platform == (PlatformChoice { backend: backend_of(os), headless: false }),
            r.asset_source is None,
    {
        RealVisualTestContext { platform: current_platform(os, false), asset_source: None }
    }

    /// A context with the given asset source.
    pub fn with_asset_source(os: TargetOs, asset_source: A) -> (r: Self)
        ensures
            r.platform == (PlatformChoice { backend: backend_of(os), headless: false }),
            r.asset_source == Some(asset_source),
    {
        RealVisualTestContext {
            platform: current_platform(os, false),
            asset_source: Some(asset_source),
        }
    }

    /// A context when the platform both renders for real and captures
    /// screenshots; `None` otherwise.
    pub fn new_if_supported(os: TargetOs, capabilities: VisualTestCapabilities) -> (r: Option<Self>)
        ensures
            r is Some <==> capabilities.real_renderer && capabilities.screenshot_capture,
            r matches Some(c) ==> c.platform == (PlatformChoice {
                backend: backend_of(os),
                headless: false,
            }) && c.asset_source is None,
    {
        if capabilities.real_renderer && capabilities.screenshot_capture {
            Some(Self::new(os))
        } else {
            None
        }
    }
}

} // verus!
