//! "King of the Hill" fastest-time records and the software stand-in for the
//! cartridge that keeps them.
use vstd::prelude::*;

use crate::res::{spec_map_index, MapType};

verus! {

/// Number of fastest-time record slots.
pub const KOTH_RECORD_SLOTS: usize = 8;

/// Value of a record slot that has never been written.
pub const KOTH_NO_RECORD: u32 = 0xFFFF_FFFF;

/// The frame counter saturates here, one below `KOTH_NO_RECORD`, so that a
/// saturated run stays distinguishable from "no record yet".
pub const KOTH_FRAMES_MAX: u32 = 0xFFFF_FFFE;

/// Word the custom cartridge answers at its detect address.
pub const CARTRIDGE_ID_VALUE: u16 = 0x4B04;

/// Software mirror of the cartridge's record-keeping state.
#[derive(Clone, Copy, Debug)]
pub struct KothShadow {
    frames: u32,
    records: [u32; 8],
    update_mask: u16,
}

/// One call on the record-keeping state: a counted frame, a solved
/// challenge, a restriction of recording permission, or a reset.
#[derive(Clone, Copy, Debug, PartialEq, Eq, Structural)]
pub enum KothOp {
    Tick,
    Solve(u8),
    Restrict(u16),
    Reset,
}

/// Whether challenge `id` may still be recorded under `mask`.
pub open spec fn may_record(mask: u16, id: int) -> bool {
    0 <= id < 16 && mask & (1u16 << id as u16) != 0
}

impl KothShadow {
    /// Frames since the last reset.
    pub closed spec fn spec_frames(self) -> u32 {
        self.frames
    }

    /// The record slots.
    pub closed spec fn spec_records(self) -> Seq<u32> {
        self.records@
    }

    /// Which challenges may still be recorded, one bit per challenge.
    pub closed spec fn spec_mask(self) -> u16 {
        self.update_mask
    }

    pub proof fn lemma_records_len(self)
        ensures
            self.spec_records().len() == KOTH_RECORD_SLOTS,
    {
    }

    /// A fresh state: no frames, no records, every challenge recordable.
    pub fn new() -> (r: Self)
        ensures
            r.spec_frames() == 0,
            r.spec_mask() == u16::MAX,
            r.spec_records() == Seq::new(8, |i: int| KOTH_NO_RECORD),
            koth_fresh(r),
    {
        let r = KothShadow { frames: 0, records: [KOTH_NO_RECORD; 8], update_mask: u16::MAX };
        assert(r.records@ =~= Seq::new(8, |i: int| KOTH_NO_RECORD));
        r
    }

    /// Counts one frame, saturating at `KOTH_FRAMES_MAX`.
    pub fn tick(&mut self)
        ensures
            final(self).spec_frames() == (if old(self).spec_frames() < KOTH_FRAMES_MAX {
                old(self).spec_frames() + 1
            } else {
                old(self).spec_frames() as int
            }),
            final(self).spec_records() == old(self).spec_records(),
            final(self).spec_mask() == old(self).spec_mask(),
            koth_step(*old(self), KothOp::Tick, *final(self)),
    {
        if self.frames < KOTH_FRAMES_MAX {
            self.frames = self.frames + 1;
        }
    }

    /// Records the current frame count for a solved challenge, if the challenge
    /// may still be recorded and the count beats the stored record.
    pub fn mark_challenge_solved(&mut self, challenge_id: u8)
        ensures
            final(self).spec_frames() == old(self).spec_frames(),
            final(self).spec_mask() == old(self).spec_mask(),
            final(self).spec_records() == (if challenge_id < KOTH_RECORD_SLOTS && may_record(
                old(self).spec_mask(),
                challenge_id as int,
            ) && old(self).spec_frames() < old(self).spec_records()[challenge_id as int] {
                old(self).spec_records().update(challenge_id as int, old(self).spec_frames())
            } else {
                old(self).spec_records()
            }),
            koth_step(*old(self), KothOp::Solve(challenge_id), *final(self)),
    {
        let i = challenge_id as usize;
        if i >= KOTH_RECORD_SLOTS {
            return;
        }
        let bit: u16 = 1u16 << (challenge_id as u16);
        if self.update_mask & bit != 0 && self.frames < self.records[i] {
            self.records[i] = self.frames;
        }
    }

    /// Takes recording permission away from challenges outside `allowed`.
    pub fn restrict_challenges(&mut self, allowed: u16)
        ensures
            final(self).spec_mask() == old(self).spec_mask() & allowed,
            final(self).spec_frames() == old(self).spec_frames(),
            final(self).spec_records() == old(self).spec_records(),
            koth_step(*old(self), KothOp::Restrict(allowed), *final(self)),
    {
        self.update_mask = self.update_mask & allowed;
    }

    /// Which challenges may still be recorded.
    pub fn get_allowed_challenges(&self) -> (r: u16)
        ensures
            r == self.spec_mask(),
    {
        self.update_mask
    }

    /// Clears the frame counter and restores recording permission. Records survive.
    pub fn reset(&mut self)
        ensures
            final(self).spec_frames() == 0,
            final(self).spec_mask() == u16::MAX,
            final(self).spec_records() == old(self).spec_records(),
            koth_step(*old(self), KothOp::Reset, *final(self)),
    {
        self.frames = 0;
        self.update_mask = u16::MAX;
    }

    /// Frames since the last reset.
    pub fn get_frame_count(&self) -> (r: u32)
        ensures
            r == self.spec_frames(),
    {
        self.frames
    }

    /// The record of a challenge, `KOTH_NO_RECORD` for ids without a slot.
    pub fn get_challenge_record(&self, challenge_id: u8) -> (r: u32)
        ensures
            r == (if challenge_id < KOTH_RECORD_SLOTS {
                self.spec_records()[challenge_id as int]
            } else {
                KOTH_NO_RECORD
            }),
    {
        let i = challenge_id as usize;
        if i < KOTH_RECORD_SLOTS {
            self.records[i]
        } else {
            KOTH_NO_RECORD
        }
    }
}

/// A state as `KothShadow::new` makes it.
pub open spec fn koth_fresh(k: KothShadow) -> bool {
    &&& k.spec_frames() == 0
    &&& k.spec_mask() == u16::MAX
    &&& k.spec_records() == Seq::new(8, |i: int| KOTH_NO_RECORD)
}

/// What one call does: `k2` is `k1` after `op` (the contracts of `tick`,
/// `mark_challenge_solved`, `restrict_challenges` and `reset`).
pub open spec fn koth_step(k1: KothShadow, op: KothOp, k2: KothShadow) -> bool {
    match op {
        KothOp::Tick => {
            &&& k2.spec_frames() == (if k1.spec_frames() < KOTH_FRAMES_MAX { k1.spec_frames() + 1 } else { k1.spec_frames() as int })
            &&& k2.spec_mask() == k1.spec_mask()
            &&& k2.spec_records() == k1.spec_records()
        },
        KothOp::Solve(c) => {
            &&& k2.spec_frames() == k1.spec_frames()
            &&& k2.spec_mask() == k1.spec_mask()
            &&& k2.spec_records() == (if c < KOTH_RECORD_SLOTS && may_record(k1.spec_mask(), c as int)
                && k1.spec_frames() < k1.spec_records()[c as int] {
                k1.spec_records().update(c as int, k1.spec_frames())
            } else {
                k1.spec_records()
            })
        },
        KothOp::Restrict(a) => {
            &&& k2.spec_frames() == k1.spec_frames()
            &&& k2.spec_mask() == k1.spec_mask() & a
            &&& k2.spec_records() == k1.spec_records()
        },
        KothOp::Reset => {
            &&& k2.spec_frames() == 0
            &&& k2.spec_mask() == u16::MAX
            &&& k2.spec_records() == k1.spec_records()
        },
    }
}

/// Whether the `i`-th call of a run solves challenge `id` while it may be
/// recorded (`states[i]` is the state before that call).
pub open spec fn permitted_solve(ops: Seq<KothOp>, states: Seq<KothShadow>, i: int, id: int) -> bool {
    &&& ops[i] matches KothOp::Solve(c) && c == id
    &&& may_record(states[i].spec_mask(), id)
}

/// The lowest frame count at which challenge `id` was solved while
/// recordable during the first `n` calls of a run, `KOTH_NO_RECORD` if never.
pub open spec fn spec_best_record(ops: Seq<KothOp>, states: Seq<KothShadow>, id: int, n: nat) -> u32
    decreases n,
{
    if n == 0 {
        KOTH_NO_RECORD
    } else {
        let b = spec_best_record(ops, states, id, (n - 1) as nat);
        let i = n - 1;
        if permitted_solve(ops, states, i, id) && states[i].spec_frames() < b {
            states[i].spec_frames()
        } else {
            b
        }
    }
}

proof fn lemma_run(ops: Seq<KothOp>, states: Seq<KothShadow>, id: int, n: nat)
    requires
        states.len() == ops.len() + 1,
        koth_fresh(states[0]),
        forall|i: int| 0 <= i < ops.len() ==> koth_step(#[trigger] states[i], ops[i], states[i + 1]),
        0 <= id < KOTH_RECORD_SLOTS,
        n <= ops.len(),
    ensures
        states[n as int].spec_records().len() == KOTH_RECORD_SLOTS,
        states[n as int].spec_frames() <= KOTH_FRAMES_MAX,
        states[n as int].spec_records()[id] == spec_best_record(ops, states, id, n),
        spec_best_record(ops, states, id, n) == KOTH_NO_RECORD <==> !(exists|i: int| 0 <= i < n && permitted_solve(ops, states, i, id)),
    decreases n,
{
    if n > 0 {
        let i = n - 1;
        lemma_run(ops, states, id, (n - 1) as nat);
        assert(koth_step(states[i], ops[i], states[i + 1]));
        if permitted_solve(ops, states, i, id) {
            assert(spec_best_record(ops, states, id, n) != KOTH_NO_RECORD);
        } else if spec_best_record(ops, states, id, n) != KOTH_NO_RECORD {
            let w = choose|j: int| 0 <= j < n - 1 && permitted_solve(ops, states, j, id);
            assert(0 <= w < n && permitted_solve(ops, states, w, id));
        } else {
            assert forall|j: int| 0 <= j < n implies !permitted_solve(ops, states, j, id) by {}
        }
    }
}

/// Over any run of `tick`, `mark_challenge_solved`, `restrict_challenges`
/// and `reset` calls from a fresh state, the record of a challenge is the
/// lowest frame count at which it was solved while recordable, and it stays
/// `KOTH_NO_RECORD` exactly when it never was; a record is never above
/// `KOTH_FRAMES_MAX` otherwise.
pub proof fn law_record_is_best_permitted_solve(ops: Seq<KothOp>, states: Seq<KothShadow>, id: int)
    requires
        states.len() == ops.len() + 1,
        koth_fresh(states[0]),
        forall|i: int| 0 <= i < ops.len() ==> koth_step(#[trigger] states[i], ops[i], states[i + 1]),
        0 <= id < KOTH_RECORD_SLOTS,
    ensures
        states.last().spec_records()[id] == spec_best_record(ops, states, id, ops.len()),
        states.last().spec_records()[id] == KOTH_NO_RECORD <==> !(exists|i: int|
            0 <= i < ops.len() && permitted_solve(ops, states, i, id)),
        states.last().spec_records()[id] != KOTH_NO_RECORD ==> states.last().spec_records()[id] <= KOTH_FRAMES_MAX,
{
    lemma_run(ops, states, id, ops.len());
    lemma_best_bounded(ops, states, id, ops.len());
}

proof fn lemma_best_bounded(ops: Seq<KothOp>, states: Seq<KothShadow>, id: int, n: nat)
    requires
        states.len() == ops.len() + 1,
        koth_fresh(states[0]),
        forall|i: int| 0 <= i < ops.len() ==> koth_step(#[trigger] states[i], ops[i], states[i + 1]),
        0 <= id < KOTH_RECORD_SLOTS,
        n <= ops.len(),
    ensures
        spec_best_record(ops, states, id, n) != KOTH_NO_RECORD ==> spec_best_record(ops, states, id, n) <= KOTH_FRAMES_MAX,
    decreases n,
{
    if n > 0 {
        lemma_best_bounded(ops, states, id, (n - 1) as nat);
        lemma_run(ops, states, id, (n - 1) as nat);
    }
}

/// Restricting recording permission never grants any: every challenge
/// recordable afterwards was recordable before.
pub proof fn law_restrict_only_removes(k1: KothShadow, k2: KothShadow, allowed: u16, id: int)
    requires
        k2.spec_mask() == k1.spec_mask() & allowed,
        may_record(k2.spec_mask(), id),
    ensures
        may_record(k1.spec_mask(), id),
{
    let m1 = k1.spec_mask();
    let i = id as u16;
    assert((m1 & allowed) & (1u16 << i) != 0 ==> m1 & (1u16 << i) != 0) by (bit_vector);
}

/// Solving a challenge never makes its record worse: the stored time can only go down.
pub proof fn law_records_only_improve(k1: KothShadow, k2: KothShadow, challenge_id: u8, i: int)
    requires
        0 <= i < KOTH_RECORD_SLOTS,
        k1.spec_records().len() == KOTH_RECORD_SLOTS,
        k2.spec_records() == (if challenge_id < KOTH_RECORD_SLOTS && may_record(
            k1.spec_mask(),
            challenge_id as int,
        ) && k1.spec_frames() < k1.spec_records()[challenge_id as int] {
            k1.spec_records().update(challenge_id as int, k1.spec_frames())
        } else {
            k1.spec_records()
        }),
    ensures
        k2.spec_records()[i] <= k1.spec_records()[i],
{
}

/// Whether the online round is running.
#[derive(Clone, Copy, Debug, PartialEq, Eq, Structural)]
pub enum ServerState {
    /// The round has not yet started or the server is still initializing.
    NotStarted,
    /// The round has started.
    Running,
    /// The round has been paused.
    Paused,
}

/// Decodes the server state register: bit 0 means initialized, bit 1 paused.
pub fn server_state_from_bits(value: u16) -> (r: ServerState)
    ensures
        r == (if value & 1 == 0 {
            ServerState::NotStarted
        } else if value & 2 != 0 {
            ServerState::Paused
        } else {
            ServerState::Running
        }),
{
    if value & 1 == 0 {
        ServerState::NotStarted
    } else if value & 2 > 0 {
        ServerState::Paused
    } else {
        ServerState::Running
    }
}

/// Number of save words the portal keeps.
pub const PORTAL_STORAGE_WORDS: usize = 32;

/// The portal to cartridge services when no cartridge answers: the server is
/// always running and the records live in a `KothShadow`.
pub struct Portal {
    pub storage: Vec<u16>,
    pub koth: KothShadow,
}

impl Portal {
    /// Whether the portal's storage has its fixed size.
    pub open spec fn wf(self) -> bool {
        self.storage@.len() == PORTAL_STORAGE_WORDS
    }

    /// A portal with zeroed storage and a fresh record state.
    pub fn new() -> (r: Self)
        ensures
            r.wf(),
            r.storage@ == Seq::new(32, |i: int| 0u16),
            r.koth.spec_frames() == 0,
            r.koth.spec_mask() == u16::MAX,
            r.koth.spec_records() == Seq::new(8, |i: int| KOTH_NO_RECORD),
    {
        let storage = vec![0u16; PORTAL_STORAGE_WORDS];
        assert(storage@ =~= Seq::new(32, |i: int| 0u16));
        Portal { storage, koth: KothShadow::new() }
    }

    /// The round is always running.
    pub fn get_server_state(&mut self) -> (r: ServerState)
        ensures
            r == ServerState::Running,
            *final(self) == *old(self),
    {
        ServerState::Running
    }

    /// Saves the first words of `data` (as many as fit) to storage.
    pub fn save_to_persistent_storage(&mut self, data: &[u16])
        requires
            old(self).wf(),
        ensures
            final(self).wf(),
            final(self).koth == old(self).koth,
            forall|i: int|
                0 <= i < PORTAL_STORAGE_WORDS ==> #[trigger] final(self).storage@[i] == (if i
                    < data@.len() {
                    data@[i]
                } else {
                    old(self).storage@[i]
                }),
    {
        let len = if data.len() < PORTAL_STORAGE_WORDS {
            data.len()
        } else {
            PORTAL_STORAGE_WORDS
        };
        let mut i: usize = 0;
        while i < len
            invariant
                len <= data@.len(),
                len <= PORTAL_STORAGE_WORDS,
                i <= len,
                self.storage@.len() == PORTAL_STORAGE_WORDS,
                self.koth == old(self).koth,
                forall|j: int|
                    0 <= j < PORTAL_STORAGE_WORDS ==> #[trigger] self.storage@[j] == (if j < i {
                        data@[j]
                    } else {
                        old(self).storage@[j]
                    }),
            decreases len - i,
        {
            self.storage.set(i, data[i]);
            i = i + 1;
        }
    }

    /// Copies saved words into the front of `buffer` (as many as fit).
    pub fn load_from_persistent_storage(&self, buffer: &mut Vec<u16>)
        requires
            self.wf(),
        ensures
            final(buffer)@.len() == old(buffer)@.len(),
            forall|i: int|
                0 <= i < old(buffer)@.len() ==> #[trigger] final(buffer)@[i] == (if i
                    < PORTAL_STORAGE_WORDS {
                    self.storage@[i]
                } else {
                    old(buffer)@[i]
                }),
    {
        let len = if buffer.len() < PORTAL_STORAGE_WORDS {
            buffer.len()
        } else {
            PORTAL_STORAGE_WORDS
        };
        let mut i: usize = 0;
        while i < len
            invariant
                len <= PORTAL_STORAGE_WORDS,
                len == (if old(buffer)@.len() < PORTAL_STORAGE_WORDS {
                    old(buffer)@.len() as int
                } else {
                    PORTAL_STORAGE_WORDS as int
                }),
                i <= len,
                self.storage@.len() == PORTAL_STORAGE_WORDS,
                buffer@.len() == old(buffer)@.len(),
                forall|j: int|
                    0 <= j < old(buffer)@.len() ==> #[trigger] buffer@[j] == (if j < i {
                        self.storage@[j]
                    } else {
                        old(buffer)@[j]
                    }),
            decreases len - i,
        {
            buffer.set(i, self.storage[i]);
            i = i + 1;
        }
    }

    /// Attested reset of the run: frame counter and permissions are restored.
    pub fn request_console_reset(&mut self)
        ensures
            final(self).koth.spec_frames() == 0,
            final(self).koth.spec_mask() == u16::MAX,
            final(self).koth.spec_records() == old(self).koth.spec_records(),
            final(self).storage == old(self).storage,
    {
        self.koth.reset();
    }

    /// Counts one game frame.
    pub fn inform_game_tick(&mut self)
        ensures
            final(self).koth.spec_frames() == (if old(self).koth.spec_frames() < KOTH_FRAMES_MAX {
                old(self).koth.spec_frames() + 1
            } else {
                old(self).koth.spec_frames() as int
            }),
            final(self).koth.spec_records() == old(self).koth.spec_records(),
            final(self).koth.spec_mask() == old(self).koth.spec_mask(),
            final(self).storage == old(self).storage,
    {
        self.koth.tick();
    }

    /// Records a solved challenge (see `KothShadow::mark_challenge_solved`).
    pub fn mark_challenge_solved(&mut self, challenge_id: u8)
        ensures
            final(self).koth.spec_frames() == old(self).koth.spec_frames(),
            final(self).koth.spec_mask() == old(self).koth.spec_mask(),
            final(self).koth.spec_records() == (if challenge_id < KOTH_RECORD_SLOTS && may_record(
                old(self).koth.spec_mask(),
                challenge_id as int,
            ) && old(self).koth.spec_frames() < old(self).koth.spec_records()[challenge_id as int] {
                old(self).koth.spec_records().update(
                    challenge_id as int,
                    old(self).koth.spec_frames(),
                )
            } else {
                old(self).koth.spec_records()
            }),
            final(self).storage == old(self).storage,
    {
        self.koth.mark_challenge_solved(challenge_id);
    }

    /// There is no cartridge: the detect word reads 0.
    pub fn cartridge_id(&self) -> (r: u16)
        ensures
            r == 0,
    {
        0
    }

    /// Frames since the last attested reset.
    pub fn get_frame_count(&self) -> (r: u32)
        ensures
            r == self.koth.spec_frames(),
    {
        self.koth.get_frame_count()
    }

    /// Which challenges may still be recorded.
    pub fn get_allowed_challenges(&self) -> (r: u16)
        ensures
            r == self.koth.spec_mask(),
    {
        self.koth.get_allowed_challenges()
    }

    /// Takes recording permission away from challenges outside `allowed`.
    pub fn restrict_challenges(&mut self, allowed: u16)
        ensures
            final(self).koth.spec_mask() == old(self).koth.spec_mask() & allowed,
            final(self).koth.spec_frames() == old(self).koth.spec_frames(),
            final(self).koth.spec_records() == old(self).koth.spec_records(),
            final(self).storage == old(self).storage,
    {
        self.koth.restrict_challenges(allowed);
    }

    /// The record of a challenge.
    pub fn get_challenge_record(&self, challenge_id: u8) -> (r: u32)
        ensures
            r == (if challenge_id < KOTH_RECORD_SLOTS {
                self.koth.spec_records()[challenge_id as int]
            } else {
                KOTH_NO_RECORD
            }),
    {
        self.koth.get_challenge_record(challenge_id)
    }

    /// The stand-in random source always answers 42.
    pub fn get_random_int(&mut self) -> (r: u32)
        ensures
            r == 42,
            *final(self) == *old(self),
    {
        42
    }

    /// A random integer between `min` and `max` (inclusive).
    pub fn get_random_range(&mut self, min: i16, max: i16) -> (r: i16)
        requires
            min <= max,
            max - min + 1 <= i16::MAX,
        ensures
            r == min + 42int % (max - min + 1),
            min <= r <= max,
    {
        let v = self.get_random_int();
        random_in_range(v, min, max)
    }
}

/// Maps a random word onto `[min, max]`.
pub fn random_in_range(v: u32, min: i16, max: i16) -> (r: i16)
    requires
        min <= max,
        max - min + 1 <= i16::MAX,
    ensures
        r == min + (v as int) % (max - min + 1),
        min <= r <= max,
{
    let n = (max - min + 1) as u32;
    let m = v % n;
    (m as i32 + min as i32) as i16
}

/// The record slot of a stage.
pub fn challenge_id(map: MapType) -> (r: u8)
    ensures
        r == spec_map_index(map),
{
    map.index() as u8
}

/// Which challenges may still be recorded while playing `map`: entering the
/// boss stage gives up the right to record any other challenge.
pub fn recordable_within(map: MapType) -> (r: u16)
    ensures
        r == (if map == MapType::BossStage {
            1u16 << spec_map_index(map) as u16
        } else {
            u16::MAX
        }),
{
    match map {
        MapType::BossStage => 1u16 << (challenge_id(map) as u16),
        _ => u16::MAX,
    }
}

} // verus!
