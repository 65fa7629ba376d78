use vstd::prelude::*;
use vstd::arithmetic::div_mod::{
    lemma_add_mod_noop_right, lemma_fundamental_div_mod, lemma_fundamental_div_mod_converse,
    lemma_mod_pos_bound,
};

use crate::clip::{AnimationClip, AtlasRef, ClipCatalog, ClipEntry};
use crate::label::PlayerState;

verus! {

/// A configuration error: a state with no entry in the catalog.
#[derive(Clone, Copy, Debug, PartialEq, Eq, Structural)]
pub enum ConfigError {
    MissingClip(PlayerState),
}

/// The per-entity playback state. Durations are in nanoseconds.
#[derive(Clone, Copy, Debug, PartialEq, Eq, Structural)]
pub struct PlaybackState {
    pub active_label: PlayerState,
    pub frame_index: usize,
    pub elapsed: u64,
    pub tick_interval: u64,
    pub atlas_ref: AtlasRef,
}

/// One advance of the frame index within `clip`: wrap from the last frame to
/// the first, else step to the next.
pub open spec fn advance_once(clip: AnimationClip, frame: int) -> int {
    if frame == clip.last {
        clip.first as int
    } else {
        frame + 1
    }
}

/// The frame index after `n` advances within `clip`.
pub open spec fn advance_by(clip: AnimationClip, frame: int, n: nat) -> int
    decreases n,
{
    if n == 0 {
        frame
    } else {
        advance_once(clip, advance_by(clip, frame, (n - 1) as nat))
    }
}

/// `n` advances move the frame `n` places forward, modulo the clip's length.
pub proof fn lemma_advance_by_mod(clip: AnimationClip, frame: int, n: nat)
    requires
        clip.wf(),
        clip.first <= frame <= clip.last,
    ensures
        advance_by(clip, frame, n) == clip.first + (frame - clip.first + n) % clip.len(),
    decreases n,
{
    let len = clip.len();
    if n == 0 {
        lemma_fundamental_div_mod_converse(frame - clip.first, len, 0, frame - clip.first);
    } else {
        lemma_advance_by_mod(clip, frame, (n - 1) as nat);
        let m = frame - clip.first + n - 1;
        let q = m / len;
        let r = m % len;
        lemma_fundamental_div_mod(m, len);
        lemma_mod_pos_bound(m, len);
        assert(m == q * len + r) by (nonlinear_arith)
            requires m == len * q + r;
        if r == len - 1 {
            assert(m + 1 == (q + 1) * len + 0) by (nonlinear_arith)
                requires m == q * len + r, r == len - 1;
            lemma_fundamental_div_mod_converse(m + 1, len, q + 1, 0);
        } else {
            assert(m + 1 == q * len + (r + 1));
            lemma_fundamental_div_mod_converse(m + 1, len, q, r + 1);
        }
    }
}

impl PlaybackState {
    /// The state is consistent with `catalog`: its label has an entry, its
    /// frame lies within that entry's clip, its atlas is that entry's atlas,
    /// and the timer holds less than one positive interval.
    pub open spec fn wf(self, catalog: ClipCatalog) -> bool {
        &&& catalog.wf()
        &&& catalog@.contains_key(self.active_label)
        &&& catalog@[self.active_label].clip.first <= self.frame_index
        &&& self.frame_index <= catalog@[self.active_label].clip.last
        &&& self.atlas_ref == catalog@[self.active_label].atlas
        &&& self.tick_interval > 0
        &&& self.elapsed < self.tick_interval
    }

    /// The state after switching to `label`, whose catalog entry is `entry`.
    pub open spec fn swapped(self, label: PlayerState, entry: ClipEntry) -> PlaybackState {
        PlaybackState {
            active_label: label,
            frame_index: entry.clip.first,
            elapsed: 0,
            tick_interval: self.tick_interval,
            atlas_ref: entry.atlas,
        }
    }

    /// The state-change step: a command to a different state that the
    /// catalog knows swaps clip and atlas; any other command leaves the state.
    pub open spec fn after_command(
        self,
        catalog: Map<PlayerState, ClipEntry>,
        commanded: Option<PlayerState>,
    ) -> PlaybackState {
        match commanded {
            Some(l) => if l != self.active_label && catalog.contains_key(l) {
                self.swapped(l, catalog[l])
            } else {
                self
            },
            None => self,
        }
    }

    /// The timer step: `dt` is added to the timer, and each whole interval
    /// it holds is taken off and advances the frame once.
    pub open spec fn after_time(
        self,
        catalog: Map<PlayerState, ClipEntry>,
        dt: u64,
    ) -> PlaybackState {
        let total = self.elapsed + dt;
        PlaybackState {
            frame_index: advance_by(
                catalog[self.active_label].clip,
                self.frame_index as int,
                (total / self.tick_interval as int) as nat,
            ) as usize,
            elapsed: (total % self.tick_interval as int) as u64,
            ..self
        }
    }

    /// One tick: the state-change step, then the timer step.
    pub open spec fn ticked(
        self,
        catalog: Map<PlayerState, ClipEntry>,
        dt: u64,
        commanded: Option<PlayerState>,
    ) -> PlaybackState {
        self.after_command(catalog, commanded).after_time(catalog, dt)
    }

    /// Whether a tick with `commanded` reports a configuration error: it asks
    /// for a different state that the catalog does not know.
    pub open spec fn rejects(
        self,
        catalog: Map<PlayerState, ClipEntry>,
        commanded: Option<PlayerState>,
    ) -> bool {
        match commanded {
            Some(l) => l != self.active_label && !catalog.contains_key(l),
            None => false,
        }
    }

    /// A fresh state for `label`, at the first frame of its clip with an empty
    /// timer; an error if the catalog has no entry for `label`.
    pub fn spawn(catalog: &ClipCatalog, label: PlayerState, tick_interval: u64) -> (r: Result<
        PlaybackState,
        ConfigError,
    >)
        requires
            catalog.wf(),
            tick_interval > 0,
        ensures
            catalog@.contains_key(label) ==> r == Ok::<PlaybackState, ConfigError>(
                PlaybackState {
                    active_label: label,
                    frame_index: catalog@[label].clip.first,
                    elapsed: 0,
                    tick_interval,
                    atlas_ref: catalog@[label].atlas,
                },
            ),
            !catalog@.contains_key(label) ==> r == Err::<PlaybackState, ConfigError>(
                ConfigError::MissingClip(label),
            ),
            r matches Ok(s) ==> s.wf(*catalog),
    {
        match catalog.get(label) {
            Some(e) => Ok(
                PlaybackState {
                    active_label: label,
                    frame_index: e.clip.first,
                    elapsed: 0,
                    tick_interval,
                    atlas_ref: e.atlas,
                },
            ),
            None => Err(ConfigError::MissingClip(label)),
        }
    }

    /// Advances the playback by one tick of `dt` nanoseconds, first applying
    /// `commanded` if it names another state. A command to a state with no
    /// catalog entry is ignored and reported; the timer step runs either way.
    pub fn update(&mut self, catalog: &ClipCatalog, dt: u64, commanded: Option<PlayerState>) -> (r:
        Result<(), ConfigError>)
        requires
            old(self).wf(*catalog),
        ensures
            *final(self) == old(self).ticked(catalog@, dt, commanded),
            final(self).wf(*catalog),
            r is Err <==> old(self).rejects(catalog@, commanded),
            r is Err ==> r == Err::<(), ConfigError>(ConfigError::MissingClip(commanded->Some_0)),
    {
        let mut result: Result<(), ConfigError> = Ok(());
        if let Some(l) = commanded {
            if l != self.active_label {
                match catalog.get(l) {
                    Some(e) => {
                        self.active_label = l;
                        self.atlas_ref = e.atlas;
                        self.frame_index = e.clip.first;
                        self.elapsed = 0;
                    },
                    None => {
                        result = Err(ConfigError::MissingClip(l));
                    },
                }
            }
        }
        let ghost mid = *self;
        assert(mid == old(self).after_command(catalog@, commanded));
        self.advance_timer(catalog, dt);
        result
    }

    /// The timer step alone.
    fn advance_timer(&mut self, catalog: &ClipCatalog, dt: u64)
        requires
            old(self).wf(*catalog),
        ensures
            *final(self) == old(self).after_time(catalog@, dt),
            final(self).wf(*catalog),
    {
        let entry = match catalog.get(self.active_label) {
            Some(e) => e,
            None => {
                return;
            },
        };
        let clip = entry.clip;
        let total: u128 = self.elapsed as u128 + dt as u128;
        let interval: u128 = self.tick_interval as u128;
        let steps: u128 = total / interval;
        let rest: u128 = total % interval;
        let len: u128 = clip.last as u128 - clip.first as u128 + 1;
        let offset: u128 = self.frame_index as u128 - clip.first as u128;
        let moved: u128 = (offset + steps % len) % len;
        proof {
            lemma_advance_by_mod(clip, self.frame_index as int, steps as nat);
            lemma_add_mod_noop_right(offset as int, steps as int, len as int);
            lemma_mod_pos_bound(offset as int + steps as int, len as int);
        }
        self.frame_index = clip.first + moved as usize;
        self.elapsed = rest as u64;
    }
}

/// Every tick keeps the state consistent with the catalog: the frame index
/// stays within the clip of the state that is active after the tick, and the
/// atlas is that state's atlas.
pub proof fn lemma_tick_keeps_frame_in_clip(
    s: PlaybackState,
    catalog: ClipCatalog,
    dt: u64,
    commanded: Option<PlayerState>,
)
    requires
        s.wf(catalog),
    ensures
        s.ticked(catalog@, dt, commanded).wf(catalog),
{
    let m = s.after_command(catalog@, commanded);
    assert(m.wf(catalog));
    let clip = catalog@[m.active_label].clip;
    let total = m.elapsed + dt;
    let n = (total / m.tick_interval as int) as nat;
    lemma_advance_by_mod(clip, m.frame_index as int, n);
    lemma_mod_pos_bound(m.frame_index - clip.first + n, clip.len());
    lemma_mod_pos_bound(total, m.tick_interval as int);
}

/// From the last frame of the active clip, one whole interval of time wraps
/// the frame index back to the clip's first frame.
pub proof fn lemma_wrap_at_last_frame(s: PlaybackState, catalog: ClipCatalog, dt: u64)
    requires
        s.wf(catalog),
        s.frame_index == catalog@[s.active_label].clip.last,
        s.elapsed + dt == s.tick_interval,
    ensures
        s.ticked(catalog@, dt, None).frame_index == catalog@[s.active_label].clip.first,
        s.ticked(catalog@, dt, None).elapsed == 0,
{
    let clip = catalog@[s.active_label].clip;
    lemma_fundamental_div_mod_converse(s.tick_interval as int, s.tick_interval as int, 1, 0);
    assert(advance_by(clip, s.frame_index as int, 1) == advance_once(
        clip,
        advance_by(clip, s.frame_index as int, 0),
    ));
}

/// Commanding the state that is already active changes nothing: the tick is
/// the same as one with no command, and reports no error.
pub proof fn lemma_same_state_command_is_no_op(
    s: PlaybackState,
    catalog: ClipCatalog,
    dt: u64,
)
    requires
        s.wf(catalog),
    ensures
        s.ticked(catalog@, dt, Some(s.active_label)) == s.ticked(catalog@, dt, None),
        !s.rejects(catalog@, Some(s.active_label)),
{
}

/// A change of state swaps clip and atlas together: right after it, within
/// less than one interval, the atlas is the new state's and the frame index
/// is the first frame of the new state's clip.
pub proof fn lemma_swap_is_atomic(
    s: PlaybackState,
    catalog: ClipCatalog,
    dt: u64,
    label: PlayerState,
)
    requires
        s.wf(catalog),
        label != s.active_label,
        catalog@.contains_key(label),
        dt < s.tick_interval,
    ensures
        s.ticked(catalog@, dt, Some(label)).active_label == label,
        s.ticked(catalog@, dt, Some(label)).atlas_ref == catalog@[label].atlas,
        s.ticked(catalog@, dt, Some(label)).frame_index == catalog@[label].clip.first,
        s.ticked(catalog@, dt, Some(label)).elapsed == dt,
{
    lemma_fundamental_div_mod_converse(dt as int, s.tick_interval as int, 0, dt as int);
}

/// A tick of three and a half intervals, from an empty timer, advances the
/// frame three times and leaves half an interval on the timer.
pub proof fn lemma_catch_up_three_and_a_half(
    s: PlaybackState,
    catalog: ClipCatalog,
    half: u64,
    dt: u64,
)
    requires
        s.wf(catalog),
        s.elapsed == 0,
        s.tick_interval == 2 * half,
        dt == 7 * half,
    ensures
        s.ticked(catalog@, dt, None).frame_index == advance_by(
            catalog@[s.active_label].clip,
            s.frame_index as int,
            3,
        ),
        s.ticked(catalog@, dt, None).frame_index == catalog@[s.active_label].clip.first + (
        s.frame_index - catalog@[s.active_label].clip.first + 3) % catalog@[s.active_label].clip.len(),
        s.ticked(catalog@, dt, None).elapsed == half,
{
    lemma_fundamental_div_mod_converse(dt as int, s.tick_interval as int, 3, half as int);
    lemma_advance_by_mod(catalog@[s.active_label].clip, s.frame_index as int, 3);
}

/// Switching to another state and straight back, with no time passing,
/// leaves the original state at the first frame of its clip with its atlas.
pub proof fn lemma_switch_and_back(
    s: PlaybackState,
    catalog: ClipCatalog,
    other: PlayerState,
)
    requires
        s.wf(catalog),
        catalog@.contains_key(other),
        other != s.active_label,
    ensures
        ({
            let back = s.ticked(catalog@, 0, Some(other)).ticked(
                catalog@,
                0,
                Some(s.active_label),
            );
            &&& back.active_label == s.active_label
            &&& back.frame_index == catalog@[s.active_label].clip.first
            &&& back.atlas_ref == s.atlas_ref
            &&& back.elapsed == 0
        }),
{
    lemma_fundamental_div_mod_converse(0, s.tick_interval as int, 0, 0);
}

} // verus!
