//! The device work that the scheduler asks its caller to perform, and the
//! scripts it builds from it.

use vstd::prelude::*;
use crate::surface::SwapchainProperties;

verus! {

/// A renderer setting together with its new value. Fractional values travel
/// as the bit pattern of their single-precision encoding.
#[derive(Clone, Copy, Debug, PartialEq, Eq, Structural)]
pub enum Setting {
    EmissiveIntensity(u32),
    SsaoEnabled(bool),
    SsaoKernelSize(u32),
    SsaoRadius(u32),
    SsaoStrength(u32),
    ToneMapMode(u32),
    OutputMode(u32),
}

/// The setting changes that the overlay holds for one frame.
#[derive(Clone, Copy, Debug, PartialEq, Eq, Structural)]
pub struct SettingChanges {
    pub emissive_intensity: Option<u32>,
    pub ssao_enabled: Option<bool>,
    pub ssao_kernel_size: Option<u32>,
    pub ssao_radius: Option<u32>,
    pub ssao_strength: Option<u32>,
    pub tone_map_mode: Option<u32>,
    pub output_mode: Option<u32>,
}

/// One piece of work for the caller to perform, in the order given.
#[derive(Clone, Copy, Debug, PartialEq, Eq, Structural)]
pub enum Action {
    /// Drain the platform's event queue and hand the batch over.
    PumpEvents,
    /// Block until the device has completed all submitted work.
    WaitDeviceIdle,
    /// Block until the graphics queue has completed all submitted work.
    WaitQueueIdle,
    /// Drop the active model.
    ReleaseModel,
    /// Make the loaded model the active one.
    InstallModel,
    /// Hand the new value of a setting to the renderer.
    Apply(Setting),
    /// Free the command buffers of the current surface.
    FreeCommandBuffers,
    /// Destroy the images, views and framebuffers of the current surface.
    DestroySwapchain,
    /// Destroy the primitives of every frame slot.
    DestroySyncObjects,
    /// Tell the renderer the properties of the surface about to be created.
    NotifyRenderer(SwapchainProperties),
    /// Create the surface with these properties.
    CreateSwapchain(SwapchainProperties),
    /// Allocate one command buffer per image of the new surface.
    AllocateCommandBuffers,
    /// Reset the command buffer of this image.
    ResetCommandBuffer(u32),
    /// Begin recording into the command buffer of this image; it may be
    /// submitted again while still pending.
    BeginCommandBuffer(u32),
    /// Record the scene pass, then the overlay pass, into the framebuffer of this image.
    DrawScene(u32),
    /// End recording into the command buffer of this image.
    EndCommandBuffer(u32),
}

/// The changes of one frame in the order in which they are applied.
pub open spec fn pending_settings(changes: SettingChanges) -> Seq<Option<Setting>> {
    seq![
        match changes.emissive_intensity {
            Some(v) => Some(Setting::EmissiveIntensity(v)),
            None => None,
        },
        match changes.ssao_enabled {
            Some(v) => Some(Setting::SsaoEnabled(v)),
            None => None,
        },
        match changes.ssao_kernel_size {
            Some(v) => Some(Setting::SsaoKernelSize(v)),
            None => None,
        },
        match changes.ssao_radius {
            Some(v) => Some(Setting::SsaoRadius(v)),
            None => None,
        },
        match changes.ssao_strength {
            Some(v) => Some(Setting::SsaoStrength(v)),
            None => None,
        },
        match changes.tone_map_mode {
            Some(v) => Some(Setting::ToneMapMode(v)),
            None => None,
        },
        match changes.output_mode {
            Some(v) => Some(Setting::OutputMode(v)),
            None => None,
        },
    ]
}

/// The work for one pending change: wait for the queue, then apply.
pub open spec fn guarded_apply(setting: Option<Setting>) -> Seq<Action> {
    match setting {
        Some(s) => seq![Action::WaitQueueIdle, Action::Apply(s)],
        None => Seq::empty(),
    }
}

/// The work for a list of pending changes, one after the other.
pub open spec fn settings_script(pending: Seq<Option<Setting>>) -> Seq<Action>
    decreases pending.len(),
{
    if pending.len() == 0 {
        Seq::empty()
    } else {
        settings_script(pending.drop_last()) + guarded_apply(pending.last())
    }
}

/// Every `Apply` in the script stands directly behind a wait for the queue.
pub open spec fn every_apply_guarded(script: Seq<Action>) -> bool {
    forall|i: int|
        0 <= i < script.len() && (#[trigger] script[i]) is Apply ==> i > 0 && script[i - 1]
            == Action::WaitQueueIdle
}

/// The setting `s` is applied somewhere in the script, whole.
pub open spec fn applies(script: Seq<Action>, s: Setting) -> bool {
    exists|i: int| 0 <= i < script.len() && #[trigger] script[i] == Action::Apply(s)
}

/// Appends the work for one pending change.
pub fn push_guarded_apply(script: &mut Vec<Action>, setting: Option<Setting>)
    ensures
        final(script)@ == old(script)@ + guarded_apply(setting),
{
    match setting {
        Some(s) => {
            script.push(Action::WaitQueueIdle);
            script.push(Action::Apply(s));
            assert(script@ =~= old(script)@ + guarded_apply(setting));
        },
        None => {
            assert(script@ =~= old(script)@ + guarded_apply(setting));
        },
    }
}

/// Whatever changes are pending, each is applied only after the queue has
/// gone idle, and each pending change is applied with the value asked for.
pub proof fn lemma_settings_wait_before_apply(pending: Seq<Option<Setting>>)
    ensures
        every_apply_guarded(settings_script(pending)),
        forall|k: int|
            0 <= k < pending.len() && (#[trigger] pending[k]) is Some ==> applies(
                settings_script(pending),
                pending[k]->Some_0,
            ),
    decreases pending.len(),
{
    if pending.len() > 0 {
        let head = pending.drop_last();
        let tail = guarded_apply(pending.last());
        lemma_settings_wait_before_apply(head);
        let before = settings_script(head);
        let whole = settings_script(pending);
        assert forall|i: int| 0 <= i < whole.len() && (#[trigger] whole[i]) is Apply implies i > 0
            && whole[i - 1] == Action::WaitQueueIdle by {
            if i < before.len() {
                assert(whole[i] == before[i]);
                assert(whole[i - 1] == before[i - 1]);
            } else {
                assert(whole[i] == tail[i - before.len()]);
                assert(i - before.len() == 1);
                assert(whole[i - 1] == tail[0]);
            }
        }
        assert forall|k: int| 0 <= k < pending.len() && (#[trigger] pending[k]) is Some implies applies(
            whole,
            pending[k]->Some_0,
        ) by {
            if k < head.len() {
                assert(head[k] == pending[k]);
                let i = choose|i: int|
                    0 <= i < before.len() && #[trigger] before[i] == Action::Apply(
                        pending[k]->Some_0,
                    );
                assert(whole[i] == before[i]);
            } else {
                assert(pending[k] == pending.last());
                assert(whole[before.len() as int + 1] == tail[1]);
            }
        }
    }
}

} // verus!
