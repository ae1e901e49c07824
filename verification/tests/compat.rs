use adabraka_gpui::application::{
    application, background_executor, current_platform, headless, Application, PlatformBackend,
    PlatformChoice, PlatformSource, RealVisualTestContext, TargetOs, VisualTestCapabilities,
};
use adabraka_gpui::resource_profile::{AppProfile, AppResourceProfile};

#[test]
fn application_wrapper_exposes_the_compatibility_surface() {
    let platform = "caller platform";
    let application: Application<&str, ()> = Application::with_platform(platform)
        .inaccessible()
        .with_assets(())
        .with_resource_profile(AppProfile::Custom(AppResourceProfile::default()));
    assert_eq!(application.platform, PlatformSource::Provided("caller platform"));
    assert!(!application.accessible);
    assert_eq!(application.assets, Some(()));
    assert_eq!(application.resource_profile, AppResourceProfile::desktop());

    let new: Application<&str, ()> = Application::new(TargetOs::Linux);
    assert_eq!(
        new.platform,
        PlatformSource::Current(PlatformChoice { backend: PlatformBackend::Linux, headless: false })
    );
    assert!(new.accessible);
    let headless_app: Application<&str, ()> = Application::headless(TargetOs::MacOs);
    assert_eq!(
        headless_app.platform,
        PlatformSource::Current(PlatformChoice { backend: PlatformBackend::MacOs, headless: true })
    );
    let minimal = headless_app.with_resource_profile(AppProfile::Minimal);
    assert_eq!(minimal.resource_profile, AppResourceProfile::minimal());
}

#[test]
fn real_visual_wrapper_exposes_the_compatibility_surface() {
    let context: RealVisualTestContext<u8> = RealVisualTestContext::new(TargetOs::Windows);
    assert_eq!(context.platform, PlatformChoice { backend: PlatformBackend::Windows, headless: false });
    assert_eq!(context.asset_source, None);
    let with_assets = RealVisualTestContext::with_asset_source(TargetOs::Linux, 7u8);
    assert_eq!(with_assets.asset_source, Some(7));
    let supported = VisualTestCapabilities { real_renderer: true, screenshot_capture: true };
    assert!(RealVisualTestContext::<u8>::new_if_supported(TargetOs::Linux, supported).is_some());
    let no_capture = VisualTestCapabilities { real_renderer: true, screenshot_capture: false };
    assert!(RealVisualTestContext::<u8>::new_if_supported(TargetOs::Linux, no_capture).is_none());
}

#[test]
fn construction_entry_points_have_stable_types() {
    assert_eq!(
        current_platform(TargetOs::FreeBsd, false),
        PlatformChoice { backend: PlatformBackend::Linux, headless: false }
    );
    assert_eq!(
        background_executor(TargetOs::Windows),
        PlatformChoice { backend: PlatformBackend::Windows, headless: false }
    );
    let app: Application<(), ()> = application(TargetOs::MacOs);
    assert_eq!(
        app.platform,
        PlatformSource::Current(PlatformChoice { backend: PlatformBackend::MacOs, headless: false })
    );
    let app: Application<(), ()> = headless(TargetOs::Linux);
    assert_eq!(
        app.platform,
        PlatformSource::Current(PlatformChoice { backend: PlatformBackend::Linux, headless: true })
    );
}

#[test]
fn the_windows_backend_ignores_headless_requests() {
    assert_eq!(current_platform(TargetOs::Windows, true), current_platform(TargetOs::Windows, false));
    assert_eq!(
        current_platform(TargetOs::Linux, true),
        PlatformChoice { backend: PlatformBackend::Linux, headless: true }
    );
    let app: Application<(), ()> = headless(TargetOs::Windows);
    assert_eq!(
        app.platform,
        PlatformSource::Current(PlatformChoice { backend: PlatformBackend::Windows, headless: false })
    );
}
