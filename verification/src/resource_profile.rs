//! Resource budget configuration for applications: predefined profiles for
//! desktop, utility and minimal applications, and fully custom budgets.

use vstd::prelude::*;

verus! {

/// Text system resource budget.
#[derive(Clone, Copy, Debug, PartialEq, Eq)]
pub struct TextResourceBudget {
    /// Maximum number of entries in the global line-layout cache.
    pub line_layout_cache_max_entries: usize,
    /// Target number of entries to retain after eviction.
    pub line_layout_cache_low_watermark: usize,
}

/// GPU resource budget.
#[derive(Clone, Copy, Debug, PartialEq, Eq)]
pub struct GpuResourceBudget {
    /// Initial width and height (in device pixels) of newly created atlas textures.
    pub atlas_initial_size: u32,
}

/// Fine-grained resource budget for an application.
#[derive(Clone, Copy, Debug, PartialEq, Eq)]
pub struct AppResourceProfile {
    /// Text layout cache configuration.
    pub text: TextResourceBudget,
    /// GPU / atlas resource configuration.
    pub gpu: GpuResourceBudget,
}

/// Predefined application profiles for common use cases.
#[derive(Clone, Copy, Debug, PartialEq, Eq)]
pub enum AppProfile {
    /// Full desktop application (IDE, editor, browser).
    Desktop,
    /// Lightweight utility window (settings panel, dialog box).
    Utility,
    /// Minimal resource usage (tray icon, status bar, notification popup).
    Minimal,
    /// Fully custom resource budget.
    Custom(AppResourceProfile),
}

/// A width and height in device pixels.
#[derive(Clone, Copy, Debug, PartialEq, Eq)]
pub struct DeviceSize {
    pub width: i32,
    pub height: i32,
}

/// The budget of a profile given by its three numbers.
pub open spec fn budget(max_entries: usize, low_watermark: usize, atlas: u32) -> AppResourceProfile {
    AppResourceProfile {
        text: TextResourceBudget {
            line_layout_cache_max_entries: max_entries,
            line_layout_cache_low_watermark: low_watermark,
        },
        gpu: GpuResourceBudget { atlas_initial_size: atlas },
    }
}

pub open spec fn desktop_budget() -> AppResourceProfile {
    budget(10_000, 5_000, 1024)
}

pub open spec fn utility_budget() -> AppResourceProfile {
    budget(3_000, 2_000, 1024)
}

pub open spec fn minimal_budget() -> AppResourceProfile {
    budget(500, 400, 512)
}

/// The concrete budget that a profile stands for.
pub open spec fn profile_budget(profile: AppProfile) -> AppResourceProfile {
    match profile {
        AppProfile::Desktop => desktop_budget(),
        AppProfile::Utility => utility_budget(),
        AppProfile::Minimal => minimal_budget(),
        AppProfile::Custom(p) => p,
    }
}

/// A budget whose eviction target lies strictly below its cache limit.
pub open spec fn evicts_below_limit(p: AppResourceProfile) -> bool {
    p.text.line_layout_cache_low_watermark < p.text.line_layout_cache_max_entries
}

impl AppResourceProfile {
    /// Preset for full desktop applications.
    pub fn desktop() -> (r: Self)
        ensures
            r == desktop_budget(),
            r.text.line_layout_cache_max_entries == 10000,
            r.text.line_layout_cache_low_watermark == 5000,
            r.gpu.atlas_initial_size == 1024,
    {
        AppResourceProfile {
            text: TextResourceBudget {
                line_layout_cache_max_entries: 10_000,
                line_layout_cache_low_watermark: 5_000,
            },
            gpu: GpuResourceBudget { atlas_initial_size: 1024 },
        }
    }

    /// Preset for utility/tool windows.
    pub fn utility() -> (r: Self)
        ensures
            r == utility_budget(),
            r.text.line_layout_cache_max_entries == 3000,
            r.text.line_layout_cache_low_watermark == 2000,
            r.gpu.atlas_initial_size == 1024,
    {
        AppResourceProfile {
            text: TextResourceBudget {
                line_layout_cache_max_entries: 3_000,
                line_layout_cache_low_watermark: 2_000,
            },
            gpu: GpuResourceBudget { atlas_initial_size: 1024 },
        }
    }

    /// Preset for minimal/tray applications.
    pub fn minimal() -> (r: Self)
        ensures
            r == minimal_budget(),
            r.text.line_layout_cache_max_entries == 500,
            r.text.line_layout_cache_low_watermark == 400,
            r.gpu.atlas_initial_size == 512,
    {
        AppResourceProfile {
            text: TextResourceBudget {
                line_layout_cache_max_entries: 500,
                line_layout_cache_low_watermark: 400,
            },
            gpu: GpuResourceBudget { atlas_initial_size: 512 },
        }
    }

    /// The atlas initial size as a square size in device pixels.
    pub fn atlas_size(&self) -> (r: DeviceSize)
        ensures
            r.width == self.gpu.atlas_initial_size as i32,
            r.height == self.gpu.atlas_initial_size as i32,
    {
        let s = self.gpu.atlas_initial_size as i32;
        DeviceSize { width: s, height: s }
    }
}

impl Default for AppResourceProfile {
    fn default() -> (r: Self)
        ensures
            r == desktop_budget(),
    {
        Self::desktop()
    }
}

impl AppProfile {
    /// Converts this profile into a concrete budget.
    pub fn to_resource_profile(&self) -> (r: AppResourceProfile)
        ensures
            r == profile_budget(*self),
            *self == AppProfile::Desktop ==> r.text.line_layout_cache_max_entries == 10_000
                && r.text.line_layout_cache_low_watermark == 5_000 && r.gpu.atlas_initial_size
                == 1024,
            *self == AppProfile::Utility ==> r.text.line_layout_cache_max_entries == 3_000
                && r.text.line_layout_cache_low_watermark == 2_000 && r.gpu.atlas_initial_size
                == 1024,
            *self == AppProfile::Minimal ==> r.text.line_layout_cache_max_entries == 500
                && r.text.line_layout_cache_low_watermark == 400 && r.gpu.atlas_initial_size == 512,
            *self matches AppProfile::Custom(p) ==> r == p,
    {
        proof {
            law_preset_budgets();
        }
        match self {
            AppProfile::Desktop => AppResourceProfile::desktop(),
            AppProfile::Utility => AppResourceProfile::utility(),
            AppProfile::Minimal => AppResourceProfile::minimal(),
            AppProfile::Custom(profile) => *profile,
        }
    }
}

impl Default for AppProfile {
    fn default() -> (r: Self)
        ensures
            r == AppProfile::Desktop,
    {
        AppProfile::Desktop
    }
}

impl From<AppProfile> for AppResourceProfile {
    fn from(profile: AppProfile) -> (r: Self) {
        profile.to_resource_profile()
    }
}

impl vstd::std_specs::convert::FromSpecImpl<AppProfile> for AppResourceProfile {
    open spec fn obeys_from_spec() -> bool {
        true
    }

    open spec fn from_spec(profile: AppProfile) -> Self {
        profile_budget(profile)
    }
}

/// Every predefined profile evicts down to a watermark strictly below its
/// cache limit, and the default budget is the desktop one.
pub proof fn lemma_presets_evict_below_limit()
    ensures
        evicts_below_limit(profile_budget(AppProfile::Desktop)),
        evicts_below_limit(profile_budget(AppProfile::Utility)),
        evicts_below_limit(profile_budget(AppProfile::Minimal)),
{
}

/// The profiles shrink from desktop to utility to minimal: each smaller
/// profile has no larger cache limit, watermark or atlas size.
pub proof fn lemma_presets_shrink()
    ensures
        utility_budget().text.line_layout_cache_max_entries
            <= desktop_budget().text.line_layout_cache_max_entries,
        minimal_budget().text.line_layout_cache_max_entries
            <= utility_budget().text.line_layout_cache_max_entries,
        utility_budget().text.line_layout_cache_low_watermark
            <= desktop_budget().text.line_layout_cache_low_watermark,
        minimal_budget().text.line_layout_cache_low_watermark
            <= utility_budget().text.line_layout_cache_low_watermark,
        utility_budget().gpu.atlas_initial_size <= desktop_budget().gpu.atlas_initial_size,
        minimal_budget().gpu.atlas_initial_size <= utility_budget().gpu.atlas_initial_size,
{
}

/// The presets' budgets: desktop keeps 10,000 line layouts and evicts down
/// to 5,000 with 1024-pixel atlases; utility keeps 3,000 and evicts down to
/// 2,000 with 1024-pixel atlases; minimal keeps 500 and evicts down to 400
/// with 512-pixel atlases. The default budget is the desktop one.
pub proof fn law_preset_budgets()
    ensures
        profile_budget(AppProfile::Desktop).text.line_layout_cache_max_entries == 10_000,
        profile_budget(AppProfile::Desktop).text.line_layout_cache_low_watermark == 5_000,
        profile_budget(AppProfile::Desktop).gpu.atlas_initial_size == 1024,
        profile_budget(AppProfile::Utility).text.line_layout_cache_max_entries == 3_000,
        profile_budget(AppProfile::Utility).text.line_layout_cache_low_watermark == 2_000,
        profile_budget(AppProfile::Utility).gpu.atlas_initial_size == 1024,
        profile_budget(AppProfile::Minimal).text.line_layout_cache_max_entries == 500,
        profile_budget(AppProfile::Minimal).text.line_layout_cache_low_watermark == 400,
        profile_budget(AppProfile::Minimal).gpu.atlas_initial_size == 512,
        desktop_budget() == profile_budget(AppProfile::Desktop),
{
}

/// A custom profile converts to exactly the budget it carries.
pub proof fn lemma_custom_profile_round_trip(p: AppResourceProfile)
    ensures
        profile_budget(AppProfile::Custom(p)) == p,
{
}

} // verus!
