use vstd::prelude::*;
use crate::task::{Amplifier, bands, spec_amplifiers};
use crate::utils::{MIN_FREQ, MAX_FREQ};

verus! {

/// A request to show a frequency range, from `start` to `end` MHz, on a
/// linear or logarithmic axis.
#[derive(Clone, Copy, PartialEq, Eq, Debug, Structural)]
pub struct BoundsRequest {
    pub start: u32,
    pub end: u32,
    pub log_scale: bool,
}

/// The whole frequency range of the plan, on the given scale.
pub open spec fn full_range(log_scale: bool) -> BoundsRequest {
    BoundsRequest { start: MIN_FREQ, end: MAX_FREQ, log_scale }
}

/// The band of the `i`-th amplifier, on the given scale.
pub open spec fn band_range(i: int, log_scale: bool) -> BoundsRequest {
    BoundsRequest {
        start: spec_amplifiers()[i].spec_freq_start(),
        end: spec_amplifiers()[i].spec_freq_end(),
        log_scale,
    }
}

/// The whole frequency range of the plan, on the given scale.
pub fn full_bounds(log_scale: bool) -> (b: BoundsRequest)
    ensures
        b == full_range(log_scale),
{
    BoundsRequest { start: MIN_FREQ, end: MAX_FREQ, log_scale }
}

/// What the user chose to see of the plan: the scale of the frequency axis,
/// the scale last acted upon, the band zoomed on (if any), and a range the
/// plot must be moved to on the next frame (if any).
pub struct ViewState {
    pub log_scale: bool,
    pub old_log_scale: bool,
    pub zoom_band: Option<usize>,
    pub force_bounds_x: Option<BoundsRequest>,
}

impl ViewState {
    /// The state after acting on the current scale.
    pub open spec fn spec_sync_log_scale(self) -> ViewState {
        if self.log_scale != self.old_log_scale {
            ViewState {
                log_scale: self.log_scale,
                old_log_scale: self.log_scale,
                zoom_band: None,
                force_bounds_x: Some(full_range(self.log_scale)),
            }
        } else {
            self
        }
    }

    /// The state after zooming on the `i`-th band.
    pub open spec fn spec_select_band(self, i: int) -> ViewState {
        ViewState {
            zoom_band: Some(i as usize),
            force_bounds_x: Some(band_range(i, self.log_scale)),
            ..self
        }
    }

    /// The state after asking for the whole range.
    pub open spec fn spec_select_all(self) -> ViewState {
        ViewState { zoom_band: None, force_bounds_x: Some(full_range(self.log_scale)), ..self }
    }

    /// The state once the pending request has been handed out.
    pub open spec fn spec_take_forced_bounds(self) -> ViewState {
        ViewState { force_bounds_x: None, ..self }
    }

    /// Linear scale, no zoom, and the whole range requested.
    pub fn new() -> (v: ViewState)
        ensures
            !v.log_scale,
            !v.old_log_scale,
            v.zoom_band is None,
            v.force_bounds_x == Some(full_range(false)),
    {
        ViewState {
            log_scale: false,
            old_log_scale: false,
            zoom_band: None,
            force_bounds_x: Some(full_bounds(false)),
        }
    }

    /// Acts on a change of scale: when the scale differs from the one last
    /// acted upon, the zoom is dropped and the whole range is requested in the
    /// new scale.  Otherwise nothing changes.
    pub fn sync_log_scale(&mut self)
        ensures
            *final(self) == old(self).spec_sync_log_scale(),
    {
        if self.log_scale != self.old_log_scale {
            self.old_log_scale = self.log_scale;
            self.zoom_band = None;
            self.force_bounds_x = Some(full_bounds(self.log_scale));
        }
    }

    /// Zooms on the `i`-th band, on the current scale.
    pub fn select_band(&mut self, i: usize)
        requires
            i < spec_amplifiers().len(),
        ensures
            *final(self) == old(self).spec_select_band(i as int),
    {
        let bs = bands();
        let (_amp, start, end): (Amplifier, u32, u32) = bs[i];
        self.zoom_band = Some(i);
        self.force_bounds_x = Some(BoundsRequest { start, end, log_scale: self.log_scale });
    }

    /// Shows the whole range again, on the current scale.
    pub fn select_all(&mut self)
        ensures
            *final(self) == old(self).spec_select_all(),
    {
        self.zoom_band = None;
        self.force_bounds_x = Some(full_bounds(self.log_scale));
    }

    /// Hands out the pending range request, once.
    pub fn take_forced_bounds(&mut self) -> (r: Option<BoundsRequest>)
        ensures
            r == old(self).force_bounds_x,
            *final(self) == old(self).spec_take_forced_bounds(),
    {
        self.force_bounds_x.take()
    }
}

/// Acting on the scale a second time changes nothing, and afterwards the
/// scale acted upon is the current one.
pub proof fn law_sync_is_idempotent(v: ViewState)
    ensures
        v.spec_sync_log_scale().spec_sync_log_scale() == v.spec_sync_log_scale(),
        v.spec_sync_log_scale().old_log_scale == v.log_scale,
        v.spec_sync_log_scale().log_scale == v.log_scale,
{
}

/// Switching the scale drops any zoom: once acted upon, the whole range is
/// requested in the new scale.
pub proof fn law_scale_switch_resets_zoom(v: ViewState)
    requires
        v.log_scale == v.old_log_scale,
    ensures
        ({
            let w = ViewState { log_scale: !v.log_scale, ..v }.spec_sync_log_scale();
            &&& w.zoom_band is None
            &&& w.force_bounds_x == Some(full_range(!v.log_scale))
        }),
{
}

/// A zoom survives a frame in which the scale did not change, and the
/// requested band is the zoomed amplifier's band on the current scale.
pub proof fn law_zoom_kept_without_scale_switch(v: ViewState, i: int)
    requires
        v.log_scale == v.old_log_scale,
        0 <= i < spec_amplifiers().len(),
    ensures
        v.spec_select_band(i).spec_sync_log_scale() == v.spec_select_band(i),
        v.spec_select_band(i).zoom_band == Some(i as usize),
        v.spec_select_band(i).force_bounds_x matches Some(b) && b.start
            == spec_amplifiers()[i].spec_freq_start() && b.end == spec_amplifiers()[i].spec_freq_end()
            && b.log_scale == v.log_scale,
{
}

/// A pending request is handed out once: a second take finds nothing.
pub proof fn law_request_taken_once(v: ViewState)
    ensures
        v.spec_take_forced_bounds().force_bounds_x is None,
        v.spec_take_forced_bounds().spec_take_forced_bounds() == v.spec_take_forced_bounds(),
{
}

/// While the scale has not changed since it was last acted upon, acting on it
/// leaves the whole view as it was, whatever the zoom and pending request.
/// Once the scale has changed, acting on it records the new scale, drops the
/// zoom and asks for the whole 20-6000 MHz range on the new scale.
pub proof fn law_sync_only_acts_on_a_change(v: ViewState)
    ensures
        v.log_scale == v.old_log_scale ==> v.spec_sync_log_scale() == v,
        v.log_scale != v.old_log_scale ==> v.spec_sync_log_scale() == (ViewState {
            log_scale: v.log_scale,
            old_log_scale: v.log_scale,
            zoom_band: None,
            force_bounds_x: Some(BoundsRequest { start: 20, end: 6000, log_scale: v.log_scale }),
        }),
{
}

/// "Tout" drops the zoom and asks for the whole 20-6000 MHz range on the
/// scale in use, leaving the scale as it was.
pub proof fn law_select_all_requests_whole_range(v: ViewState)
    ensures
        v.spec_select_all() == (ViewState {
            log_scale: v.log_scale,
            old_log_scale: v.old_log_scale,
            zoom_band: None,
            force_bounds_x: Some(BoundsRequest { start: 20, end: 6000, log_scale: v.log_scale }),
        }),
{
}

/// Choosing a band zooms on it and asks for exactly that amplifier's
/// frequencies, in the order 20-500, 500-1000, 960-1215, 1000-2500 and
/// 2400-6000 MHz, on the scale in use; the scale is left as it was.
pub proof fn law_select_band_requests_its_band(v: ViewState, i: int)
    requires
        0 <= i < 5,
    ensures
        ({
            let (lo, hi) = if i == 0 {
                (20u32, 500u32)
            } else if i == 1 {
                (500u32, 1000u32)
            } else if i == 2 {
                (960u32, 1215u32)
            } else if i == 3 {
                (1000u32, 2500u32)
            } else {
                (2400u32, 6000u32)
            };
            v.spec_select_band(i) == (ViewState {
                log_scale: v.log_scale,
                old_log_scale: v.old_log_scale,
                zoom_band: Some(i as usize),
                force_bounds_x: Some(BoundsRequest { start: lo, end: hi, log_scale: v.log_scale }),
            })
        }),
{
}

/// Handing out the request clears it and changes nothing else.
pub proof fn law_take_keeps_the_rest(v: ViewState)
    ensures
        v.spec_take_forced_bounds() == (ViewState {
            log_scale: v.log_scale,
            old_log_scale: v.old_log_scale,
            zoom_band: v.zoom_band,
            force_bounds_x: None,
        }),
{
}

/// The whole range is 20-6000 MHz on either scale; a new view, linear and
/// not zoomed, asks for it on a linear axis.
pub proof fn law_whole_range(log_scale: bool)
    ensures
        full_range(log_scale) == (BoundsRequest { start: 20, end: 6000, log_scale }),
{
}

} // verus!
