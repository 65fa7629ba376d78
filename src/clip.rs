use vstd::prelude::*;

use crate::label::PlayerState;

verus! {

/// An inclusive, non-empty range of frame indices within one atlas.
#[derive(Clone, Copy, Debug, PartialEq, Eq, Structural)]
pub struct AnimationClip {
    pub first: usize,
    pub last: usize,
}

impl AnimationClip {
    pub open spec fn wf(self) -> bool {
        self.first <= self.last
    }

    /// Number of frames in the clip.
    pub open spec fn len(self) -> int {
        self.last - self.first + 1
    }

    pub fn new(first: usize, last: usize) -> (r: AnimationClip)
        requires
            first <= last,
        ensures
            r.first == first,
            r.last == last,
            r.wf(),
    {
        AnimationClip { first, last }
    }
}

/// An opaque reference to a sliced sprite sheet, as handed out by the
/// renderer's asset store.
#[derive(Clone, Copy, Debug, PartialEq, Eq, Structural)]
pub struct AtlasRef {
    pub id: u64,
}

/// A clip together with the atlas it plays from.
#[derive(Clone, Copy, Debug, PartialEq, Eq, Structural)]
pub struct ClipEntry {
    pub clip: AnimationClip,
    pub atlas: AtlasRef,
}

/// The size of one cell of a sprite sheet, and how many columns and rows of
/// cells the sheet is sliced into.
#[derive(Clone, Copy, Debug, PartialEq, Eq, Structural)]
pub struct GridSpec {
    pub cell_width: u32,
    pub cell_height: u32,
    pub columns: usize,
    pub rows: usize,
}

pub const CELL_WIDTH: u32 = 80;

pub const CELL_HEIGHT: u32 = 96;

pub const IDLE_FIRST: usize = 0;

pub const IDLE_LAST: usize = 11;

pub const RUN_FIRST: usize = 0;

pub const RUN_LAST: usize = 9;

/// How the idle sheet is sliced.
pub fn idle_grid() -> (r: GridSpec)
    ensures
        r == (GridSpec { cell_width: CELL_WIDTH, cell_height: CELL_HEIGHT, columns: 10, rows: 5 }),
{
    GridSpec { cell_width: CELL_WIDTH, cell_height: CELL_HEIGHT, columns: 10, rows: 5 }
}

/// How the run sheet is sliced.
pub fn run_grid() -> (r: GridSpec)
    ensures
        r == (GridSpec { cell_width: CELL_WIDTH, cell_height: CELL_HEIGHT, columns: 10, rows: 2 }),
{
    GridSpec { cell_width: CELL_WIDTH, cell_height: CELL_HEIGHT, columns: 10, rows: 2 }
}

/// A mapping from actor state to the clip and atlas played in that state.
/// Each state has at most one entry.
pub struct ClipCatalog {
    idle: Option<ClipEntry>,
    run: Option<ClipEntry>,
}

impl ClipCatalog {
    pub closed spec fn slot(&self, label: PlayerState) -> Option<ClipEntry> {
        match label {
            PlayerState::Idle => self.idle,
            PlayerState::Run => self.run,
        }
    }

    /// The entries of the catalog.
    pub closed spec fn view(&self) -> Map<PlayerState, ClipEntry> {
        Map::new(|l: PlayerState| self.slot(l) is Some, |l: PlayerState| self.slot(l)->Some_0)
    }

    /// Every clip in the catalog is a non-empty range.
    pub open spec fn wf(&self) -> bool {
        forall|l: PlayerState| #[trigger] self@.contains_key(l) ==> self@[l].clip.wf()
    }

    /// A catalog with no entries.
    pub fn new() -> (r: ClipCatalog)
        ensures
            r@ == Map::<PlayerState, ClipEntry>::empty(),
            r.wf(),
    {
        let r = ClipCatalog { idle: None, run: None };
        assert(r@ =~= Map::<PlayerState, ClipEntry>::empty());
        r
    }

    /// Binds `label` to `clip` played from `atlas`, replacing any earlier entry.
    pub fn insert(&mut self, label: PlayerState, clip: AnimationClip, atlas: AtlasRef)
        requires
            old(self).wf(),
            clip.wf(),
        ensures
            final(self)@ == old(self)@.insert(label, ClipEntry { clip, atlas }),
            final(self).wf(),
    {
        let e = ClipEntry { clip, atlas };
        match label {
            PlayerState::Idle => self.idle = Some(e),
            PlayerState::Run => self.run = Some(e),
        }
        assert(self@ =~= old(self)@.insert(label, e));
    }

    /// The entry bound to `label`, if any.
    pub fn get(&self, label: PlayerState) -> (r: Option<ClipEntry>)
        ensures
            r == (if self@.contains_key(label) { Some(self@[label]) } else { None }),
    {
        match label {
            PlayerState::Idle => self.idle,
            PlayerState::Run => self.run,
        }
    }

    pub fn contains(&self, label: PlayerState) -> (r: bool)
        ensures
            r == self@.contains_key(label),
    {
        self.get(label).is_some()
    }
}

/// The player's catalog: idle plays frames `IDLE_FIRST..=IDLE_LAST` of the
/// idle atlas, run plays frames `RUN_FIRST..=RUN_LAST` of the run atlas.
pub fn player_catalog(idle_atlas: AtlasRef, run_atlas: AtlasRef) -> (r: ClipCatalog)
    ensures
        r.wf(),
        r@ == map![
            PlayerState::Idle => ClipEntry { clip: AnimationClip { first: IDLE_FIRST, last: IDLE_LAST }, atlas: idle_atlas },
            PlayerState::Run => ClipEntry { clip: AnimationClip { first: RUN_FIRST, last: RUN_LAST }, atlas: run_atlas },
        ],
{
    let mut c = ClipCatalog::new();
    c.insert(PlayerState::Idle, AnimationClip::new(IDLE_FIRST, IDLE_LAST), idle_atlas);
    c.insert(PlayerState::Run, AnimationClip::new(RUN_FIRST, RUN_LAST), run_atlas);
    assert(c@ =~= map![
        PlayerState::Idle => ClipEntry { clip: AnimationClip { first: IDLE_FIRST, last: IDLE_LAST }, atlas: idle_atlas },
        PlayerState::Run => ClipEntry { clip: AnimationClip { first: RUN_FIRST, last: RUN_LAST }, atlas: run_atlas },
    ]);
    c
}

} // verus!
