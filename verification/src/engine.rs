//! Decisions of the kick voice around its floating-point signal path: which
//! layers are heard, which FX slots run and in what order, how long the body
//! is held at full level, where the visualiser's capture writes, and when the
//! editor is sent a fresh state.

use vstd::prelude::*;

use crate::dsp::distortion::DistortionType;
use crate::params::{FX_COMP, FX_DIST, FX_EQ, FX_TRANS};

verus! {

// ── Layer solo ──────────────────────────────────────────────────────────────

/// Which layers reach the mix.
#[derive(PartialEq, Eq, Structural, Clone, Copy, Debug)]
pub struct LayerMix {
    /// The click transient is mixed in.
    pub click: bool,
    /// The body (with its clean sub band) is mixed in.
    pub body: bool,
    /// The noise layer is mixed in.
    pub noise: bool,
}

/// Some layer is soloed.
pub open spec fn any_solo(click_solo: bool, body_solo: bool, sub_solo: bool, noise_solo: bool) -> bool {
    click_solo || body_solo || sub_solo || noise_solo
}

/// Layers heard for the given solo switches. With no solo every layer is
/// heard; with a solo only the soloed layers are. The sub is part of the
/// body, so soloing the sub lets the body through.
pub fn layer_mix(click_solo: bool, body_solo: bool, sub_solo: bool, noise_solo: bool) -> (r: LayerMix)
    ensures
        r.click == (!any_solo(click_solo, body_solo, sub_solo, noise_solo) || click_solo),
        r.body == (!any_solo(click_solo, body_solo, sub_solo, noise_solo) || body_solo || sub_solo),
        r.noise == (!any_solo(click_solo, body_solo, sub_solo, noise_solo) || noise_solo),
        (click_solo || body_solo || sub_solo || noise_solo) ==> (r.click == click_solo && r.body == (
        body_solo || sub_solo) && r.noise == noise_solo),
        !(click_solo || body_solo || sub_solo || noise_solo) ==> (r.click && r.body && r.noise),
{
    let any = click_solo || body_solo || sub_solo || noise_solo;
    if any {
        LayerMix { click: click_solo, body: body_solo || sub_solo, noise: noise_solo }
    } else {
        LayerMix { click: true, body: true, noise: true }
    }
}

/// A solo is engaged exactly when one of the four solo switches is on.
pub proof fn lemma_any_solo_is_some_switch(click_solo: bool, body_solo: bool, sub_solo: bool, noise_solo: bool)
    ensures
        any_solo(click_solo, body_solo, sub_solo, noise_solo) == (click_solo || body_solo
            || sub_solo || noise_solo),
{
}

/// Soloing never silences the soloed layer, a layer that is not soloed is
/// silent as soon as another layer is, and with no solo every layer is heard.
pub proof fn lemma_solo_rules(click_solo: bool, body_solo: bool, sub_solo: bool, noise_solo: bool, r: LayerMix)
    requires
        r.click == (!any_solo(click_solo, body_solo, sub_solo, noise_solo) || click_solo),
        r.body == (!any_solo(click_solo, body_solo, sub_solo, noise_solo) || body_solo || sub_solo),
        r.noise == (!any_solo(click_solo, body_solo, sub_solo, noise_solo) || noise_solo),
    ensures
        click_solo ==> r.click,
        (body_solo || sub_solo) ==> r.body,
        noise_solo ==> r.noise,
        !any_solo(click_solo, body_solo, sub_solo, noise_solo) ==> r.click && r.body && r.noise,
        any_solo(click_solo, body_solo, sub_solo, noise_solo) ==> (r.click == click_solo && r.noise
            == noise_solo && r.body == (body_solo || sub_solo)),
{
}

// ── FX rack routing ─────────────────────────────────────────────────────────

/// The effect an FX slot runs.
#[derive(PartialEq, Eq, Structural, Clone, Copy, Debug)]
pub enum FxKind {
    /// Two peaking EQ bands in series.
    Eq,
    /// Compressor with make-up gain.
    Compressor,
    /// Distortion blended with the dry signal.
    Distortion,
    /// Transient shaper.
    Transient,
}

/// The effect named by a slot type; `None` for an empty slot or a type that
/// names no effect.
pub open spec fn fx_kind_spec(slot_type: i32) -> Option<FxKind> {
    if slot_type == FX_EQ {
        Some(FxKind::Eq)
    } else if slot_type == FX_COMP {
        Some(FxKind::Compressor)
    } else if slot_type == FX_DIST {
        Some(FxKind::Distortion)
    } else if slot_type == FX_TRANS {
        Some(FxKind::Transient)
    } else {
        None
    }
}

/// The effect that a slot runs: a disabled slot runs none.
pub open spec fn slot_effect_spec(slot_type: i32, enabled: bool) -> Option<FxKind> {
    if enabled {
        fx_kind_spec(slot_type)
    } else {
        None
    }
}

/// The effect that a slot with this type and switch runs, if any.
pub fn slot_effect(slot_type: i32, enabled: bool) -> (r: Option<FxKind>)
    ensures
        r == slot_effect_spec(slot_type, enabled),
        !enabled ==> r is None,
        (r == Some(FxKind::Eq)) == (enabled && slot_type == FX_EQ),
        (r == Some(FxKind::Compressor)) == (enabled && slot_type == FX_COMP),
        (r == Some(FxKind::Distortion)) == (enabled && slot_type == FX_DIST),
        (r == Some(FxKind::Transient)) == (enabled && slot_type == FX_TRANS),
        (r is None) == (!enabled || slot_type < FX_EQ || slot_type > FX_TRANS),
{
    if !enabled {
        None
    } else if slot_type == FX_EQ {
        Some(FxKind::Eq)
    } else if slot_type == FX_COMP {
        Some(FxKind::Compressor)
    } else if slot_type == FX_DIST {
        Some(FxKind::Distortion)
    } else if slot_type == FX_TRANS {
        Some(FxKind::Transient)
    } else {
        None
    }
}

/// What a slot runs, in terms of its switch and type: a disabled slot runs
/// nothing, and an enabled slot runs the effect its type names (types 1 to 4:
/// EQ, compressor, distortion, transient shaper), or nothing for any other
/// type.
pub proof fn lemma_slot_effect_rules(slot_type: i32, enabled: bool)
    ensures
        !enabled ==> slot_effect_spec(slot_type, enabled) is None,
        (slot_effect_spec(slot_type, enabled) == Some(FxKind::Eq)) == (enabled && slot_type == 1),
        (slot_effect_spec(slot_type, enabled) == Some(FxKind::Compressor)) == (enabled && slot_type
            == 2),
        (slot_effect_spec(slot_type, enabled) == Some(FxKind::Distortion)) == (enabled && slot_type
            == 3),
        (slot_effect_spec(slot_type, enabled) == Some(FxKind::Transient)) == (enabled && slot_type
            == 4),
        (slot_effect_spec(slot_type, enabled) is None) == (!enabled || slot_type < 1 || slot_type
            > 4),
{
}

/// The effect an enabled slot of this type runs, stated on the type alone.
pub open spec fn runs_kind(slot_type: i32, kind: FxKind) -> bool {
    ||| slot_type == 1 && kind == FxKind::Eq
    ||| slot_type == 2 && kind == FxKind::Compressor
    ||| slot_type == 3 && kind == FxKind::Distortion
    ||| slot_type == 4 && kind == FxKind::Transient
}

/// One stage of the FX chain: a slot and the effect it runs.
#[derive(PartialEq, Eq, Structural, Clone, Copy, Debug)]
pub struct FxStage {
    /// Index of the slot in the rack.
    pub slot: usize,
    /// Effect of the slot.
    pub kind: FxKind,
}

/// The stages run for the first `n` slots, in slot order.
pub open spec fn fx_chain_spec(types: Seq<i32>, enabled: Seq<bool>, n: nat) -> Seq<FxStage>
    decreases n,
{
    if n == 0 {
        Seq::empty()
    } else {
        let prev = fx_chain_spec(types, enabled, (n - 1) as nat);
        match slot_effect_spec(types[n - 1], enabled[n - 1]) {
            Some(k) => prev.push(FxStage { slot: (n - 1) as usize, kind: k }),
            None => prev,
        }
    }
}

/// The stages the rack runs, in the order the signal passes through them:
/// every enabled slot whose type names an effect, by increasing slot index.
pub fn fx_chain(slot_types: &[i32], slot_enabled: &[bool]) -> (r: Vec<FxStage>)
    requires
        slot_types@.len() == slot_enabled@.len(),
    ensures
        r@ == fx_chain_spec(slot_types@, slot_enabled@, slot_types@.len()),
        forall|a: int|
            0 <= a < r@.len() ==> {
                let st = #[trigger] r@[a];
                &&& st.slot < slot_types@.len()
                &&& slot_enabled@[st.slot as int]
                &&& runs_kind(slot_types@[st.slot as int], st.kind)
            },
        forall|a: int, b: int| 0 <= a < b < r@.len() ==> r@[a].slot < r@[b].slot,
        forall|s: int|
            0 <= s < slot_types@.len() && #[trigger] slot_enabled@[s] && 1 <= slot_types@[s] <= 4
                ==> exists|a: int| 0 <= a < r@.len() && r@[a].slot == s,
{
    let mut r: Vec<FxStage> = Vec::new();
    let n = slot_types.len();
    let mut i: usize = 0;
    while i < n
        invariant
            n == slot_types@.len(),
            n == slot_enabled@.len(),
            i <= n,
            r@ == fx_chain_spec(slot_types@, slot_enabled@, i as nat),
        decreases n - i,
    {
        match slot_effect(slot_types[i], slot_enabled[i]) {
            Some(k) => {
                r.push(FxStage { slot: i, kind: k });
            },
            None => {},
        }
        i = i + 1;
    }
    proof {
        lemma_fx_chain_order(slot_types@, slot_enabled@, n as nat);
        assert forall|a: int| 0 <= a < r@.len() implies {
            let st = #[trigger] r@[a];
            &&& st.slot < slot_types@.len()
            &&& slot_enabled@[st.slot as int]
            &&& runs_kind(slot_types@[st.slot as int], st.kind)
        } by {
            let st = r@[a];
            lemma_slot_effect_rules(slot_types@[st.slot as int], slot_enabled@[st.slot as int]);
        }
        assert forall|t: int|
            0 <= t < slot_types@.len() && #[trigger] slot_enabled@[t] && 1 <= slot_types@[t] <= 4
            implies exists|a: int| 0 <= a < r@.len() && r@[a].slot == t by {
            lemma_slot_effect_rules(slot_types@[t], slot_enabled@[t]);
            assert(slot_effect_spec(slot_types@[t], slot_enabled@[t]) is Some);
        }
    }
    r
}

/// Every stage of the chain for the first `n` slots is one of those slots,
/// with the effect that slot runs.
pub proof fn lemma_fx_chain_sound(types: Seq<i32>, enabled: Seq<bool>, n: nat)
    requires
        n <= types.len(),
        n <= enabled.len(),
        n <= usize::MAX + 1,
    ensures
        forall|a: int|
            0 <= a < fx_chain_spec(types, enabled, n).len() ==> {
                let st = #[trigger] fx_chain_spec(types, enabled, n)[a];
                &&& st.slot < n
                &&& slot_effect_spec(types[st.slot as int], enabled[st.slot as int]) == Some(
                    st.kind,
                )
            },
    decreases n,
{
    if n > 0 {
        lemma_fx_chain_sound(types, enabled, (n - 1) as nat);
    }
}

/// The stages of the chain come by strictly increasing slot index.
pub proof fn lemma_fx_chain_sorted(types: Seq<i32>, enabled: Seq<bool>, n: nat)
    requires
        n <= types.len(),
        n <= enabled.len(),
        n <= usize::MAX + 1,
    ensures
        forall|a: int, b: int|
            0 <= a < b < fx_chain_spec(types, enabled, n).len() ==> fx_chain_spec(
                types,
                enabled,
                n,
            )[a].slot < fx_chain_spec(types, enabled, n)[b].slot,
    decreases n,
{
    if n > 0 {
        let m = (n - 1) as nat;
        lemma_fx_chain_sorted(types, enabled, m);
        lemma_fx_chain_sound(types, enabled, m);
        let prev = fx_chain_spec(types, enabled, m);
        assert(forall|a: int| 0 <= a < prev.len() ==> (#[trigger] prev[a]).slot < m);
    }
}

/// Every enabled slot among the first `n` whose type names an effect has a
/// stage in the chain.
pub proof fn lemma_fx_chain_complete(types: Seq<i32>, enabled: Seq<bool>, n: nat)
    requires
        n <= types.len(),
        n <= enabled.len(),
        n <= usize::MAX + 1,
    ensures
        forall|s: int|
            0 <= s < n && (#[trigger] slot_effect_spec(types[s], enabled[s])) is Some ==> exists|
                a: int,
            |
                0 <= a < fx_chain_spec(types, enabled, n).len() && fx_chain_spec(
                    types,
                    enabled,
                    n,
                )[a].slot == s,
    decreases n,
{
    if n > 0 {
        let m = (n - 1) as nat;
        lemma_fx_chain_complete(types, enabled, m);
        let prev = fx_chain_spec(types, enabled, m);
        let cur = fx_chain_spec(types, enabled, n);
        assert forall|s: int|
            0 <= s < n && (#[trigger] slot_effect_spec(types[s], enabled[s])) is Some implies exists|
                a: int,
            |
                0 <= a < cur.len() && cur[a].slot == s by {
            match slot_effect_spec(types[m as int], enabled[m as int]) {
                Some(k) => {
                    assert(cur == prev.push(FxStage { slot: m as usize, kind: k }));
                    if s == m {
                        assert(cur[prev.len() as int].slot == s);
                    } else {
                        let a = choose|a: int| 0 <= a < prev.len() && prev[a].slot == s;
                        assert(cur[a] == prev[a]);
                    }
                },
                None => {
                    assert(cur == prev);
                },
            }
        }
    }
}

/// The FX chain runs the slots in increasing slot order, each at most once;
/// a slot is in the chain exactly when it is enabled and its type names an
/// effect, and then with that effect.
pub proof fn lemma_fx_chain_order(types: Seq<i32>, enabled: Seq<bool>, n: nat)
    requires
        n <= types.len(),
        n <= enabled.len(),
        n <= usize::MAX + 1,
    ensures
        forall|a: int, b: int|
            0 <= a < b < fx_chain_spec(types, enabled, n).len() ==> fx_chain_spec(
                types,
                enabled,
                n,
            )[a].slot < fx_chain_spec(types, enabled, n)[b].slot,
        forall|a: int|
            0 <= a < fx_chain_spec(types, enabled, n).len() ==> {
                let st = #[trigger] fx_chain_spec(types, enabled, n)[a];
                &&& st.slot < n
                &&& slot_effect_spec(types[st.slot as int], enabled[st.slot as int]) == Some(
                    st.kind,
                )
            },
        forall|s: int|
            0 <= s < n && (#[trigger] slot_effect_spec(types[s], enabled[s])) is Some ==> exists|
                a: int,
            |
                0 <= a < fx_chain_spec(types, enabled, n).len() && fx_chain_spec(
                    types,
                    enabled,
                    n,
                )[a].slot == s,
{
    lemma_fx_chain_sorted(types, enabled, n);
    lemma_fx_chain_sound(types, enabled, n);
    lemma_fx_chain_complete(types, enabled, n);
}

/// The distortion algorithm chosen by an FX slot's type selector (the slot's
/// first parameter scaled to `0..=4` and rounded): selectors past the last
/// algorithm choose `Bitcrush`.
pub open spec fn distortion_from_selector_spec(selector: int) -> DistortionType {
    if selector < 4 {
        DistortionType::from_index_spec(selector)
    } else {
        DistortionType::Bitcrush
    }
}

/// The distortion algorithm chosen by an FX slot's type selector.
pub fn distortion_from_selector(selector: usize) -> (r: DistortionType)
    ensures
        r == distortion_from_selector_spec(selector as int),
        selector == 0 ==> r == DistortionType::Tanh,
        selector == 1 ==> r == DistortionType::HardClip,
        selector == 2 ==> r == DistortionType::Foldback,
        selector == 3 ==> r == DistortionType::Asymmetric,
        selector >= 4 ==> r == DistortionType::Bitcrush,
{
    if selector == 0 {
        DistortionType::Tanh
    } else if selector == 1 {
        DistortionType::HardClip
    } else if selector == 2 {
        DistortionType::Foldback
    } else if selector == 3 {
        DistortionType::Asymmetric
    } else {
        DistortionType::Bitcrush
    }
}

/// The selector equal to an algorithm's index chooses that algorithm.
pub proof fn lemma_selector_chooses_indexed_type(t: DistortionType)
    ensures
        distortion_from_selector_spec(t.index_spec() as int) == t,
{
}

// ── Body hold ───────────────────────────────────────────────────────────────

/// One sample of the hold counter: `(remaining afterwards, level held)`.
pub open spec fn hold_step_spec(remaining: nat) -> (nat, bool) {
    if remaining > 0 {
        ((remaining - 1) as nat, true)
    } else {
        (0, false)
    }
}

/// Whether the `k`-th sample (from 0) after a state with `remaining` hold
/// samples is held at full level.
pub open spec fn hold_output_at(remaining: nat, k: nat) -> bool
    decreases k,
{
    if k == 0 {
        hold_step_spec(remaining).1
    } else {
        hold_output_at(hold_step_spec(remaining).0, (k - 1) as nat)
    }
}

/// Counts the samples for which the body stays at full level after a note-on
/// (the "punch window") before its decay starts.
pub struct HoldCounter {
    remaining: u32,
}

impl HoldCounter {
    /// Samples of hold left.
    pub closed spec fn view(self) -> nat {
        self.remaining as nat
    }

    /// A counter with no hold pending.
    pub fn new() -> (r: HoldCounter)
        ensures
            r.view() == 0,
    {
        HoldCounter { remaining: 0 }
    }

    /// Start a hold of `samples` samples (on note-on).
    pub fn start(&mut self, samples: u32)
        ensures
            final(self).view() == samples,
    {
        self.remaining = samples;
    }

    /// Advance one sample; `true` while the level is held, `false` once the
    /// decay runs.
    pub fn step(&mut self) -> (held: bool)
        ensures
            (final(self).view(), held) == hold_step_spec(old(self).view()),
            held == (old(self).view() > 0),
            held ==> final(self).view() == old(self).view() - 1,
            !held ==> final(self).view() == 0,
    {
        if self.remaining > 0 {
            self.remaining = self.remaining - 1;
            true
        } else {
            false
        }
    }

    /// Cancel any pending hold.
    pub fn reset(&mut self)
        ensures
            final(self).view() == 0,
    {
        self.remaining = 0;
    }

    /// Samples of hold left.
    pub fn remaining(&self) -> (r: u32)
        ensures
            r == self.view(),
    {
        self.remaining
    }
}

/// After a hold of `h` samples starts, exactly the first `h` samples are held
/// at full level and every later one decays.
pub proof fn lemma_hold_window(h: nat, k: nat)
    ensures
        hold_output_at(h, k) == (k < h),
    decreases k,
{
    if k > 0 {
        lemma_hold_window(hold_step_spec(h).0, (k - 1) as nat);
    }
}

// ── Waveform capture ────────────────────────────────────────────────────────

/// One sample of the capture: `(position, capturing, written index)`
/// afterwards, for a buffer of `len` samples.
pub open spec fn capture_step_spec(pos: nat, capturing: bool, len: nat) -> (nat, bool, Option<nat>) {
    if capturing && pos < len {
        (pos + 1, pos + 1 < len, Some(pos))
    } else {
        (pos, capturing, None)
    }
}

/// The index written by the `k`-th sample (from 0) from a given capture state.
pub open spec fn capture_output_at(pos: nat, capturing: bool, len: nat, k: nat) -> Option<nat>
    decreases k,
{
    let st = capture_step_spec(pos, capturing, len);
    if k == 0 {
        st.2
    } else {
        capture_output_at(st.0, st.1, len, (k - 1) as nat)
    }
}

/// Where the visualiser's capture of the last kick writes: after a note-on,
/// the following samples fill the buffer from its start, once.
pub struct WaveformCapture {
    pos: usize,
    capturing: bool,
    len: usize,
}

impl WaveformCapture {
    #[verifier::type_invariant]
    spec fn inv(self) -> bool {
        self.pos <= self.len
    }

    /// Next index to write.
    pub closed spec fn pos_spec(self) -> nat {
        self.pos as nat
    }

    /// A capture is running.
    pub closed spec fn capturing_spec(self) -> bool {
        self.capturing
    }

    /// Length of the buffer captured into.
    pub closed spec fn len_spec(self) -> nat {
        self.len as nat
    }

    /// A capture into a buffer of `len` samples, idle.
    pub fn new(len: usize) -> (r: WaveformCapture)
        ensures
            r.pos_spec() == 0,
            !r.capturing_spec(),
            r.len_spec() == len,
    {
        WaveformCapture { pos: 0, capturing: false, len }
    }

    /// Restart the capture from the buffer's start (on note-on).
    pub fn start(&mut self)
        ensures
            final(self).pos_spec() == 0,
            final(self).capturing_spec(),
            final(self).len_spec() == old(self).len_spec(),
    {
        self.pos = 0;
        self.capturing = true;
    }

    /// Advance one sample: the index at which this sample is stored, if the
    /// capture is running.
    pub fn next_slot(&mut self) -> (r: Option<usize>)
        ensures
            final(self).len_spec() == old(self).len_spec(),
            ({
                let st = capture_step_spec(
                    old(self).pos_spec(),
                    old(self).capturing_spec(),
                    old(self).len_spec(),
                );
                &&& final(self).pos_spec() == st.0
                &&& final(self).capturing_spec() == st.1
                &&& match r {
                    Some(i) => st.2 == Some(i as nat),
                    None => st.2 is None,
                }
            }),
            r matches Some(i) ==> i < old(self).len_spec(),
            (r is Some) == (old(self).capturing_spec() && old(self).pos_spec() < old(
                self,
            ).len_spec()),
            r matches Some(i) ==> i == old(self).pos_spec() && final(self).pos_spec() == i + 1
                && final(self).capturing_spec() == (i + 1 < old(self).len_spec()),
            r is None ==> final(self).pos_spec() == old(self).pos_spec()
                && final(self).capturing_spec() == old(self).capturing_spec(),
    {
        proof {
            use_type_invariant(&*self);
        }
        if self.capturing && self.pos < self.len {
            let p = self.pos;
            self.pos = self.pos + 1;
            if self.pos >= self.len {
                self.capturing = false;
            }
            Some(p)
        } else {
            None
        }
    }

    /// The capture is running.
    pub fn is_capturing(&self) -> (r: bool)
        ensures
            r == self.capturing_spec(),
    {
        self.capturing
    }

    /// Next index to write.
    pub fn position(&self) -> (r: usize)
        ensures
            r == self.pos_spec(),
    {
        self.pos
    }
}

/// From a running capture at position `p`, the `k`-th following sample is
/// stored at `p + k` while that lies in the buffer, and nothing more is
/// stored after that.
pub proof fn lemma_capture_fills_in_order(p: nat, len: nat, k: nat)
    requires
        p <= len,
    ensures
        capture_output_at(p, true, len, k) == (if p + k < len {
            Some(p + k)
        } else {
            None::<nat>
        }),
    decreases k,
{
    if p < len {
        if k > 0 {
            if p + 1 < len {
                lemma_capture_fills_in_order(p + 1, len, (k - 1) as nat);
            } else {
                lemma_capture_idle(p + 1, len, (k - 1) as nat);
            }
        }
    } else {
        lemma_capture_stuck(p, len, k);
    }
}

/// An idle capture stores nothing.
pub proof fn lemma_capture_idle(p: nat, len: nat, k: nat)
    ensures
        capture_output_at(p, false, len, k) is None,
    decreases k,
{
    if k > 0 {
        lemma_capture_idle(p, len, (k - 1) as nat);
    }
}

/// A capture that has reached the buffer's end stores nothing.
pub proof fn lemma_capture_stuck(p: nat, len: nat, k: nat)
    requires
        p >= len,
    ensures
        capture_output_at(p, true, len, k) is None,
    decreases k,
{
    if k > 0 {
        lemma_capture_stuck(p, len, (k - 1) as nat);
    }
}

/// After a note-on, the `k`-th sample is stored at index `k` for every `k`
/// below the buffer length, and no later sample is stored.
pub proof fn lemma_capture_after_trigger(len: nat, k: nat)
    ensures
        capture_output_at(0, true, len, k) == (if k < len {
            Some(k)
        } else {
            None::<nat>
        }),
{
    lemma_capture_fills_in_order(0, len, k);
}

// ── Editor refresh ──────────────────────────────────────────────────────────

/// Rate (per second) at which the editor is sent the parameter state.
pub const EDITOR_REFRESH_RATE: u32 = 30;

/// Samples between two state packets at a sample rate of `sample_rate` Hz:
/// a thirtieth of a second, and at least one sample.
pub open spec fn refresh_interval_spec(sample_rate: nat) -> nat {
    if sample_rate / (EDITOR_REFRESH_RATE as nat) > 0 {
        sample_rate / (EDITOR_REFRESH_RATE as nat)
    } else {
        1
    }
}

/// Samples between two state packets at a sample rate of `sample_rate` Hz.
pub fn refresh_interval(sample_rate: u32) -> (r: u32)
    ensures
        r == refresh_interval_spec(sample_rate as nat),
        r > 0,
{
    let n = sample_rate / EDITOR_REFRESH_RATE;
    if n > 0 {
        n
    } else {
        1
    }
}

/// At a sample rate of at least 30 Hz, packets sent every
/// `refresh_interval` samples come at 30 per second, up to the rounding of
/// the interval to whole samples: 30 intervals fit in one second and 30
/// intervals of one sample more do not.
pub proof fn lemma_refresh_rate(sample_rate: nat)
    requires
        sample_rate >= EDITOR_REFRESH_RATE,
    ensures
        EDITOR_REFRESH_RATE * refresh_interval_spec(sample_rate) <= sample_rate,
        sample_rate < EDITOR_REFRESH_RATE * (refresh_interval_spec(sample_rate) + 1),
{
}

/// Throttles the parameter packets sent to the editor: one each time the
/// samples processed since the last packet reach the interval.
pub struct EditorThrottle {
    counter: u32,
    interval: u32,
}

impl EditorThrottle {
    #[verifier::type_invariant]
    spec fn inv(self) -> bool {
        0 < self.interval && self.counter < self.interval
    }

    /// Samples processed since the last packet.
    pub closed spec fn view(self) -> nat {
        self.counter as nat
    }

    /// Samples between two packets.
    pub closed spec fn interval_spec(self) -> nat {
        self.interval as nat
    }

    /// A throttle sending one packet per `interval` samples, with no samples
    /// counted yet.
    pub fn with_interval(interval: u32) -> (r: EditorThrottle)
        requires
            interval > 0,
        ensures
            r.view() == 0,
            r.interval_spec() == interval,
    {
        EditorThrottle { counter: 0, interval }
    }

    /// Samples processed since the last packet; always below the interval.
    pub fn counter(&self) -> (r: u32)
        ensures
            r == self.view(),
            r < self.interval_spec(),
    {
        proof {
            use_type_invariant(self);
        }
        self.counter
    }

    /// Samples between two packets.
    pub fn interval(&self) -> (r: u32)
        ensures
            r == self.interval_spec(),
            r > 0,
    {
        proof {
            use_type_invariant(self);
        }
        self.interval
    }

    /// Count a block of `num_samples` samples; `true` when a packet is due.
    /// The samples past the interval are carried into the next count, so the
    /// packets keep to one per interval whatever the block size.
    pub fn tick(&mut self, num_samples: u32) -> (send: bool)
        requires
            old(self).view() + num_samples <= u32::MAX,
        ensures
            final(self).interval_spec() == old(self).interval_spec(),
            (final(self).view(), send) == throttle_step_spec(
                old(self).view(),
                num_samples as nat,
                old(self).interval_spec(),
            ),
            send == (old(self).view() + num_samples >= old(self).interval_spec()),
            send ==> final(self).view() == (old(self).view() + num_samples) % (old(
                self,
            ).interval_spec() as int),
            !send ==> final(self).view() == old(self).view() + num_samples,
            final(self).view() < final(self).interval_spec(),
    {
        proof {
            use_type_invariant(&*self);
        }
        let total = self.counter + num_samples;
        if total >= self.interval {
            self.counter = total % self.interval;
            true
        } else {
            self.counter = total;
            false
        }
    }
}

/// One block of `n` samples through a throttle with count `count` and
/// interval `interval`: `(count afterwards, packet sent)`.
pub open spec fn throttle_step_spec(count: nat, n: nat, interval: nat) -> (nat, bool) {
    if count + n >= interval {
        ((count + n) % interval, true)
    } else {
        (count + n, false)
    }
}

/// A block sends a packet exactly when the samples counted reach the
/// interval, whatever the block's size, and the samples past the interval
/// stay counted.
pub proof fn lemma_throttle_step_rules(count: nat, n: nat, interval: nat)
    requires
        interval > 0,
    ensures
        throttle_step_spec(count, n, interval).1 == (count + n >= interval),
        count + n >= interval ==> throttle_step_spec(count, n, interval).0 == (count + n)
            % interval,
        count + n < interval ==> throttle_step_spec(count, n, interval).0 == count + n,
{
}

/// Count left after a run of blocks.
pub open spec fn throttle_count_after(count: nat, blocks: Seq<nat>, interval: nat) -> nat
    decreases blocks.len(),
{
    if blocks.len() == 0 {
        count
    } else {
        throttle_count_after(
            throttle_step_spec(count, blocks[0], interval).0,
            blocks.drop_first(),
            interval,
        )
    }
}

/// Packets sent over a run of blocks.
pub open spec fn throttle_packets(count: nat, blocks: Seq<nat>, interval: nat) -> nat
    decreases blocks.len(),
{
    if blocks.len() == 0 {
        0
    } else {
        let st = throttle_step_spec(count, blocks[0], interval);
        (if st.1 {
            1nat
        } else {
            0nat
        }) + throttle_packets(st.0, blocks.drop_first(), interval)
    }
}

/// Total samples of a run of blocks.
pub open spec fn total_samples(blocks: Seq<nat>) -> nat
    decreases blocks.len(),
{
    if blocks.len() == 0 {
        0
    } else {
        blocks[0] + total_samples(blocks.drop_first())
    }
}

/// Over any run of blocks no longer than the interval, the throttle sends
/// one packet per whole interval of samples: from a count `c`, a run of `N`
/// samples sends `(c + N) / interval` packets and leaves `(c + N) % interval`
/// counted.
pub proof fn lemma_throttle_run(count: nat, blocks: Seq<nat>, interval: nat)
    requires
        interval > 0,
        count < interval,
        forall|i: int| 0 <= i < blocks.len() ==> #[trigger] blocks[i] <= interval,
    ensures
        throttle_packets(count, blocks, interval) == (count + total_samples(blocks)) / interval,
        throttle_count_after(count, blocks, interval) == (count + total_samples(blocks)) % interval,
    decreases blocks.len(),
{
    if blocks.len() > 0 {
        let b = blocks[0];
        let rest = blocks.drop_first();
        let st = throttle_step_spec(count, b, interval);
        let r = total_samples(rest);
        assert forall|i: int| 0 <= i < rest.len() implies #[trigger] rest[i] <= interval by {
            assert(rest[i] == blocks[i + 1]);
        }
        if count + b >= interval {
            assert(st.0 == count + b - interval) by (nonlinear_arith)
                requires
                    st.0 == (count + b) % interval,
                    interval <= count + b < 2 * interval,
            ;
            lemma_throttle_run(st.0, rest, interval);
            let c2: nat = st.0;
            assert((count + b + r) / interval == 1 + (c2 + r) / interval && (count + b + r)
                % interval == (c2 + r) % interval) by (nonlinear_arith)
                requires
                    interval > 0,
                    c2 + interval == count + b,
            ;
        } else {
            lemma_throttle_run(st.0, rest, interval);
        }
    } else {
        assert(count / interval == 0 && count % interval == count) by (nonlinear_arith)
            requires
                count < interval,
        ;
    }
}

/// One second of audio at a sample rate of at least 930 Hz (so that the
/// interval is at least 31 samples), in blocks no longer than the interval,
/// sends exactly `EDITOR_REFRESH_RATE` (30) packets to the editor from a
/// fresh throttle.
pub proof fn lemma_packets_per_second(sample_rate: nat, blocks: Seq<nat>)
    requires
        sample_rate >= 930,
        total_samples(blocks) == sample_rate,
        forall|i: int|
            0 <= i < blocks.len() ==> #[trigger] blocks[i] <= refresh_interval_spec(sample_rate),
    ensures
        throttle_packets(0, blocks, refresh_interval_spec(sample_rate)) == EDITOR_REFRESH_RATE,
{
    let iv = refresh_interval_spec(sample_rate);
    lemma_refresh_rate(sample_rate);
    assert(iv >= 31);
    lemma_throttle_run(0, blocks, iv);
    assert(sample_rate / iv == 30) by (nonlinear_arith)
        requires
            30 * iv <= sample_rate,
            sample_rate < 30 * (iv + 1),
            iv >= 31,
    ;
}

} // verus!
