//! The drawable surface's configuration and the context that owns it.

use crate::format::{select_format, selected_format};
use vstd::prelude::*;

verus! {

/// Frames that may be queued for presentation ahead of the one on screen.
pub const MAXIMUM_FRAME_LATENCY: u32 = 2;

/// Whether a surface of this size covers no pixels.
pub open spec fn has_zero_area(width: u32, height: u32) -> bool {
    width == 0 || height == 0
}

/// Tells whether a surface of this size covers no pixels.
pub fn is_zero_area(width: u32, height: u32) -> (zero: bool)
    ensures
        zero == has_zero_area(width, height),
{
    width == 0 || height == 0
}

/// The negotiated size, format and pacing of a drawable surface.
#[derive(Clone, Copy, Debug, PartialEq, Eq)]
pub struct SurfaceConfiguration {
    pub width: u32,
    pub height: u32,
    pub format: wgpu::TextureFormat,
    pub present_mode: wgpu::PresentMode,
    pub alpha_mode: wgpu::CompositeAlphaMode,
    pub desired_maximum_frame_latency: u32,
}

impl SurfaceConfiguration {
    /// A configuration may be applied to a surface only when it has an area.
    pub open spec fn wf(self) -> bool {
        !has_zero_area(self.width, self.height)
    }

    /// This configuration with other dimensions and everything else kept.
    pub open spec fn resized(self, width: u32, height: u32) -> SurfaceConfiguration {
        SurfaceConfiguration { width, height, ..self }
    }
}

/// What a surface supports on the adapter it was negotiated with, each list
/// in the platform's order of preference.
#[derive(Debug, PartialEq, Eq)]
pub struct SurfaceCapabilities {
    pub formats: Vec<wgpu::TextureFormat>,
    pub present_modes: Vec<wgpu::PresentMode>,
    pub alpha_modes: Vec<wgpu::CompositeAlphaMode>,
}

/// Why no context can be built for a window. None of these is recoverable.
#[derive(Clone, Copy, Debug, PartialEq, Eq)]
pub enum BootstrapError {
    /// The surface supports no texture format on this adapter.
    NoSurfaceFormat,
    /// The surface supports no present mode on this adapter.
    NoPresentMode,
    /// The surface supports no alpha mode on this adapter.
    NoAlphaMode,
    /// The window has no area, so no configuration may be applied.
    ZeroArea,
}

/// The ready GPU context of one window, as far as the lifecycle logic reads
/// it: the window the surface is bound to and the surface's configuration.
#[derive(Clone, Copy, Debug, PartialEq, Eq)]
pub struct State {
    pub window: u64,
    pub config: SurfaceConfiguration,
}

/// The first reason, if any, for which bootstrap fails on these inputs.
pub open spec fn bootstrap_error(
    capabilities: SurfaceCapabilities,
    width: u32,
    height: u32,
) -> Option<BootstrapError> {
    if capabilities.formats@.len() == 0 {
        Some(BootstrapError::NoSurfaceFormat)
    } else if capabilities.present_modes@.len() == 0 {
        Some(BootstrapError::NoPresentMode)
    } else if capabilities.alpha_modes@.len() == 0 {
        Some(BootstrapError::NoAlphaMode)
    } else if has_zero_area(width, height) {
        Some(BootstrapError::ZeroArea)
    } else {
        None
    }
}

/// The configuration that bootstrap builds where it does not fail: the
/// selected format, the first present mode and the first alpha mode, at the
/// window's size.
pub open spec fn initial_configuration(
    capabilities: SurfaceCapabilities,
    width: u32,
    height: u32,
) -> SurfaceConfiguration {
    SurfaceConfiguration {
        width,
        height,
        format: selected_format(capabilities.formats@)->0,
        present_mode: capabilities.present_modes@[0],
        alpha_mode: capabilities.alpha_modes@[0],
        desired_maximum_frame_latency: MAXIMUM_FRAME_LATENCY,
    }
}

impl State {
    /// A context is sound when its configuration may be applied.
    pub open spec fn wf(self) -> bool {
        self.config.wf()
    }

    /// The context after a request to take the given dimensions: unchanged
    /// where either is zero, otherwise with the configuration resized.
    pub open spec fn reconfigured(self, width: u32, height: u32) -> State {
        if has_zero_area(width, height) {
            self
        } else {
            State { config: self.config.resized(width, height), ..self }
        }
    }

    /// Builds the context of a window from what its surface supports: picks
    /// the format, present mode and alpha mode and fixes the initial
    /// configuration at the window's size.
    pub fn new(window: u64, width: u32, height: u32, capabilities: &SurfaceCapabilities) -> (built:
        Result<State, BootstrapError>)
        ensures
            match built {
                Ok(state) => {
                    &&& bootstrap_error(*capabilities, width, height) is None
                    &&& state.window == window
                    &&& state.config == initial_configuration(*capabilities, width, height)
                    &&& state.wf()
                },
                Err(error) => bootstrap_error(*capabilities, width, height) == Some(error),
            },
    {
        let format = match select_format(&capabilities.formats) {
            Some(format) => format,
            None => {
                return Err(BootstrapError::NoSurfaceFormat);
            },
        };
        if capabilities.present_modes.len() == 0 {
            return Err(BootstrapError::NoPresentMode);
        }
        if capabilities.alpha_modes.len() == 0 {
            return Err(BootstrapError::NoAlphaMode);
        }
        if is_zero_area(width, height) {
            return Err(BootstrapError::ZeroArea);
        }
        Ok(
            State {
                window,
                config: SurfaceConfiguration {
                    width,
                    height,
                    format,
                    present_mode: capabilities.present_modes[0],
                    alpha_mode: capabilities.alpha_modes[0],
                    desired_maximum_frame_latency: MAXIMUM_FRAME_LATENCY,
                },
            },
        )
    }

    /// The window that the surface is bound to.
    pub fn window(&self) -> (window: u64)
        ensures
            window == self.window,
    {
        self.window
    }

    /// Takes new dimensions for the surface. Where either is zero nothing
    /// changes and nothing is to be applied; otherwise the configuration is
    /// rebuilt with the new dimensions and handed back to be applied.
    pub fn reconfigure(&mut self, width: u32, height: u32) -> (apply: Option<SurfaceConfiguration>)
        ensures
            *final(self) == old(self).reconfigured(width, height),
            has_zero_area(width, height) ==> apply is None && *final(self) == *old(self),
            !has_zero_area(width, height) ==> apply == Some(final(self).config) && final(self).wf(),
    {
        if is_zero_area(width, height) {
            return None;
        }
        self.config.width = width;
        self.config.height = height;
        Some(self.config)
    }
}

/// Reconfiguring twice with the same dimensions leaves the context as a
/// single reconfiguration does.
pub proof fn lemma_reconfigure_is_idempotent(state: State, width: u32, height: u32)
    ensures
        state.reconfigured(width, height).reconfigured(width, height) == state.reconfigured(
            width,
            height,
        ),
{
}

/// A request with a zero dimension changes nothing.
pub proof fn lemma_zero_area_is_ignored(state: State, width: u32, height: u32)
    requires
        has_zero_area(width, height),
    ensures
        state.reconfigured(width, height) == state,
{
}

/// Reconfiguration changes the dimensions only, keeps a sound context sound,
/// and makes any context sound once dimensions with an area were taken.
pub proof fn lemma_reconfigure_keeps_the_rest(state: State, width: u32, height: u32)
    ensures
        state.reconfigured(width, height).window == state.window,
        state.reconfigured(width, height).config.format == state.config.format,
        state.reconfigured(width, height).config.present_mode == state.config.present_mode,
        state.reconfigured(width, height).config.alpha_mode == state.config.alpha_mode,
        state.reconfigured(width, height).config.desired_maximum_frame_latency
            == state.config.desired_maximum_frame_latency,
        state.wf() ==> state.reconfigured(width, height).wf(),
        !has_zero_area(width, height) ==> state.reconfigured(width, height).wf(),
        !has_zero_area(width, height) ==> state.reconfigured(width, height).config.width == width
            && state.reconfigured(width, height).config.height == height,
{
}

} // verus!
