//! What the commands of the user interface decide: when the runtime starts
//! and stops, and which windows are opened or refreshed.

use vstd::prelude::*;
use crate::config::{Config, Region};
use crate::runtime::{RuntimeState, TaskLaunch, TranscendiaRuntime};

verus! {

/// What is to be opened after a command.
#[derive(Debug)]
pub struct WindowPlan {
    /// The scheduling task to launch, if the command started the runtime.
    pub launch: Option<TaskLaunch>,
    /// The region over which the overlay is opened, if it is opened.
    pub overlay: Option<Region>,
    /// Whether the configuration window is opened.
    pub config_window: bool,
}

/// How the overlay learns of new settings.
#[derive(Clone, Copy, Debug, PartialEq, Eq, Structural)]
pub enum OverlayRefresh {
    /// Move and restyle the open overlay.
    Edit { region: Region, monitor: u32, blur: bool },
    /// Publish the refresh event.
    Notify,
    /// Nothing to do.
    Nothing,
}

/// Whether `plan` is what follows from starting the runtime on the selected
/// region of `config`, if there is one.
pub open spec fn starts_on_region(
    before: RuntimeState,
    after: RuntimeState,
    config: Config,
    plan: WindowPlan,
) -> bool {
    match config.region {
        Some(region) => {
            &&& after == before.started(config.lang@)
            &&& plan.launch is Some == before.launches()
            &&& plan.launch matches Some(task) ==> task.monitor == config.monitor && task.region
                == region && task.language@ == config.lang@ && task.interval == before.interval
            &&& plan.overlay == Some(region)
        },
        None => {
            &&& after == before
            &&& plan.launch is None
            &&& plan.overlay is None
        },
    }
}

/// The end of a region selection or of provisioning: with a region selected
/// the runtime is started and the overlay opened; the configuration window
/// is opened when it is asked for or when no region is selected.
pub fn f_s_r(runtime: &mut TranscendiaRuntime, config: &Config, create_config: bool) -> (plan:
    WindowPlan)
    ensures
        starts_on_region(old(runtime)@, final(runtime)@, *config, plan),
        plan.config_window == (create_config || config.region is None),
{
    match config.region {
        Some(region) => {
            let launch = runtime.start(config.monitor, region, config.lang.clone());
            WindowPlan { launch, overlay: Some(region), config_window: create_config }
        },
        None => WindowPlan { launch: None, overlay: None, config_window: true },
    }
}

/// The start of the application. Until every model is there nothing is
/// started and nothing is opened here; after that the runtime is started on
/// the selected region, or the configuration window is opened where no
/// region is selected.
pub fn startup(runtime: &mut TranscendiaRuntime, config: &Config, models_ready: bool) -> (plan:
    WindowPlan)
    ensures
        models_ready ==> starts_on_region(old(runtime)@, final(runtime)@, *config, plan)
            && plan.config_window == (config.region is None),
        !models_ready ==> final(runtime)@ == old(runtime)@ && plan.launch is None
            && plan.overlay is None && !plan.config_window,
{
    if models_ready {
        f_s_r(runtime, config, false)
    } else {
        WindowPlan { launch: None, overlay: None, config_window: false }
    }
}

/// The start of a region selection: an open overlay is closed and the
/// runtime stopped with it.
pub fn select_region(runtime: &mut TranscendiaRuntime, overlay_open: bool)
    ensures
        final(runtime)@ == if overlay_open {
            old(runtime)@.stopped()
        } else {
            old(runtime)@
        },
{
    if overlay_open {
        runtime.stop();
    }
}

/// What the overlay is told after new settings were stored.
pub open spec fn refresh_for(config: Config, refresh_w_overlay: bool, overlay_open: bool)
    -> OverlayRefresh {
    if !refresh_w_overlay {
        OverlayRefresh::Notify
    } else {
        match config.region {
            Some(region) => if overlay_open {
                OverlayRefresh::Edit {
                    region,
                    monitor: config.monitor,
                    blur: config.blur_background,
                }
            } else {
                OverlayRefresh::Nothing
            },
            None => OverlayRefresh::Nothing,
        }
    }
}

/// Puts new settings in place of the current ones. The runtime takes the
/// new interval and language without a restart.
pub fn set_config(
    runtime: &mut TranscendiaRuntime,
    config: &mut Config,
    new_config: Config,
    refresh_w_overlay: bool,
    overlay_open: bool,
) -> (refresh: OverlayRefresh)
    ensures
        *final(config) == new_config,
        final(runtime)@ == (RuntimeState {
            interval: new_config.interval,
            language: new_config.lang@,
            ..old(runtime)@
        }),
        refresh == refresh_for(new_config, refresh_w_overlay, overlay_open),
{
    runtime.update(new_config.interval);
    runtime.update_language(new_config.lang.clone());
    let refresh = if !refresh_w_overlay {
        OverlayRefresh::Notify
    } else {
        match new_config.region {
            Some(region) => if overlay_open {
                OverlayRefresh::Edit {
                    region,
                    monitor: new_config.monitor,
                    blur: new_config.blur_background,
                }
            } else {
                OverlayRefresh::Nothing
            },
            None => OverlayRefresh::Nothing,
        }
    };
    *config = new_config;
    refresh
}

} // verus!
