//! The simulation model: one logical particle state in two layouts.
//!
//! The same state exists interleaved (one record per entity, as host
//! algorithms and the wire encoder need it) and columnar (one array per
//! field, as a batched accelerator kernel needs it). Exactly one layout is
//! authoritative at any time, tracked by two staleness flags; [`SimulationModel::sync`]
//! is the only place state crosses layouts. Steps are committed through
//! [`SimulationModel::commit_accelerator_step`] and
//! [`SimulationModel::commit_host_step`], which install the values the
//! external step algorithm produced and flip the flags; the numeric
//! algorithms themselves are pluggable collaborators outside this crate.

use vstd::prelude::*;

use crate::errors::SimError;

verus! {

/// One of the two physical arrangements of the model state.
#[derive(Clone, Copy, Debug, PartialEq, Eq, Structural)]
pub enum Layout {
    /// One record per entity, contiguous: `x, y, vx, vy` repeated.
    Interleaved,
    /// One array per field, contiguous.
    Columnar,
}

/// Which execution path one step takes.
#[derive(Clone, Copy, Debug, PartialEq, Eq, Structural)]
pub enum StepPath {
    /// Batched kernel over the columnar layout.
    Accelerator,
    /// Pure host algorithm in place over the interleaved buffer.
    Host,
}

/// The columnar output of one accelerator step: one array per field.
pub struct ColumnarUpdate {
    pub x: Vec<u32>,
    pub y: Vec<u32>,
    pub vx: Vec<u32>,
    pub vy: Vec<u32>,
}

impl ColumnarUpdate {
    /// Every column covers each entity exactly once.
    pub open spec fn covers(&self, count: usize) -> bool {
        &&& self.x@.len() == count
        &&& self.y@.len() == count
        &&& self.vx@.len() == count
        &&& self.vy@.len() == count
    }
}

/// The interleaved view of four equal-length columns: entity `e`
/// contributes `x[e], y[e], vx[e], vy[e]` at positions `4e .. 4e + 4`.
pub open spec fn interleave(x: Seq<u32>, y: Seq<u32>, vx: Seq<u32>, vy: Seq<u32>) -> Seq<u32>
    recommends
        y.len() == x.len(),
        vx.len() == x.len(),
        vy.len() == x.len(),
{
    Seq::new(
        4 * x.len(),
        |k: int|
            {
                if k % 4 == 0 {
                    x[k / 4]
                } else if k % 4 == 1 {
                    y[k / 4]
                } else if k % 4 == 2 {
                    vx[k / 4]
                } else {
                    vy[k / 4]
                }
            },
    )
}

/// The particle state in both layouts, with its coherence flags.
pub struct SimulationModel {
    /// Entity count, fixed at construction; changing it means building a
    /// new model, never resizing in place.
    pub count: usize,
    /// Interleaved layout: `4 * count` words.
    pub interleaved: Vec<u32>,
    /// Columnar layout, one array of `count` words per field.
    pub col_x: Vec<u32>,
    pub col_y: Vec<u32>,
    pub col_vx: Vec<u32>,
    pub col_vy: Vec<u32>,
    /// The columnar layout does not reflect the latest step.
    pub columnar_stale: bool,
    /// The interleaved layout does not reflect the latest step.
    pub interleaved_stale: bool,
    /// Whether an accelerator kernel was available at construction; when
    /// absent, every step takes the host path.
    pub kernel_available: bool,
    /// Whether the most recent committed step used the accelerator.
    pub last_used_accelerator: bool,
}

impl SimulationModel {
    /// The columnar layout read as one interleaved sequence.
    pub open spec fn columnar_as_interleaved(&self) -> Seq<u32> {
        interleave(self.col_x@, self.col_y@, self.col_vx@, self.col_vy@)
    }

    /// Structural coherence: both layouts sized for `count`, at least one
    /// layout authoritative, and when neither is stale they agree.
    pub open spec fn wf(&self) -> bool {
        &&& self.interleaved@.len() == 4 * self.count
        &&& self.col_x@.len() == self.count
        &&& self.col_y@.len() == self.count
        &&& self.col_vx@.len() == self.count
        &&& self.col_vy@.len() == self.count
        &&& !(self.columnar_stale && self.interleaved_stale)
        &&& (!self.columnar_stale && !self.interleaved_stale) ==> self.interleaved@
            == self.columnar_as_interleaved()
    }

    /// The logical state: whatever the authoritative layout holds, read in
    /// interleaved order.
    pub open spec fn state(&self) -> Seq<u32> {
        if self.interleaved_stale {
            self.columnar_as_interleaved()
        } else {
            self.interleaved@
        }
    }

    /// Build a model over an initial interleaved state (`4 * count`
    /// words); a buffer of any other length is rejected. Both layouts
    /// start coherent and no step has run yet.
    pub fn new(count: usize, initial: Vec<u32>, kernel_available: bool) -> (r: Result<
        SimulationModel,
        SimError,
    >)
        ensures
            (r is Ok) == (initial@.len() == 4 * count),
            r matches Ok(m) ==> {
                &&& m.wf()
                &&& m.count == count
                &&& m.state() == initial@
                &&& m.kernel_available == kernel_available
                &&& m.last_used_accelerator == false
                &&& m.columnar_stale == false
                &&& m.interleaved_stale == false
            },
            r matches Err(e) ==> e == SimError::FramingError,
    {
        let total: usize = initial.len();
        if !(total % 4 == 0 && total / 4 == count) {
            return Err(SimError::FramingError);
        }
        let mut col_x: Vec<u32> = Vec::new();
        let mut col_y: Vec<u32> = Vec::new();
        let mut col_vx: Vec<u32> = Vec::new();
        let mut col_vy: Vec<u32> = Vec::new();
        let mut i: usize = 0;
        while i < count
            invariant
                i <= count,
                initial@.len() == 4 * count,
                4 * count <= usize::MAX,
                col_x@.len() == i,
                col_y@.len() == i,
                col_vx@.len() == i,
                col_vy@.len() == i,
                forall|e: int|
                    0 <= e < i ==> col_x@[e] == initial@[4 * e] && col_y@[e] == initial@[4 * e + 1]
                        && col_vx@[e] == initial@[4 * e + 2] && col_vy@[e] == initial@[4 * e + 3],
            decreases count - i,
        {
            col_x.push(initial[4 * i]);
            col_y.push(initial[4 * i + 1]);
            col_vx.push(initial[4 * i + 2]);
            col_vy.push(initial[4 * i + 3]);
            i = i + 1;
        }
        let m = SimulationModel {
            count,
            interleaved: initial,
            col_x,
            col_y,
            col_vx,
            col_vy,
            columnar_stale: false,
            interleaved_stale: false,
            kernel_available,
            last_used_accelerator: false,
        };
        proof {
            assert forall|k: int| 0 <= k < 4 * count implies m.columnar_as_interleaved()[k]
                == m.interleaved@[k] by {
                assert(k == 4 * (k / 4) + k % 4);
            }
            assert(m.columnar_as_interleaved() =~= m.interleaved@);
        }
        Ok(m)
    }

    /// Entity count, fixed at construction.
    pub fn entity_count(&self) -> (n: usize)
        ensures
            n == self.count,
    {
        self.count
    }

    /// Which path the next step takes: the accelerator whenever its kernel
    /// is available, else the host fallback.
    pub fn step_path(&self) -> (p: StepPath)
        ensures
            p == (if self.kernel_available {
                StepPath::Accelerator
            } else {
                StepPath::Host
            }),
    {
        if self.kernel_available {
            StepPath::Accelerator
        } else {
            StepPath::Host
        }
    }

    /// Whether the most recent committed step ran on the accelerator.
    pub fn used_accelerator(&self) -> (r: bool)
        ensures
            r == self.last_used_accelerator,
    {
        self.last_used_accelerator
    }

    /// Bring `target` up to date with the authoritative layout. This copy
    /// is the only place state crosses layouts; the logical state never
    /// changes, and the other layout's flag is untouched.
    pub fn sync(&mut self, target: Layout)
        requires
            old(self).wf(),
        ensures
            final(self).wf(),
            final(self).state() == old(self).state(),
            final(self).count == old(self).count,
            final(self).kernel_available == old(self).kernel_available,
            final(self).last_used_accelerator == old(self).last_used_accelerator,
            target == Layout::Interleaved ==> {
                &&& !final(self).interleaved_stale
                &&& final(self).interleaved@ == old(self).state()
                &&& final(self).columnar_stale == old(self).columnar_stale
                &&& final(self).col_x@ == old(self).col_x@
                &&& final(self).col_y@ == old(self).col_y@
                &&& final(self).col_vx@ == old(self).col_vx@
                &&& final(self).col_vy@ == old(self).col_vy@
            },
            target == Layout::Columnar ==> {
                &&& !final(self).columnar_stale
                &&& final(self).columnar_as_interleaved() == old(self).state()
                &&& final(self).interleaved_stale == old(self).interleaved_stale
                &&& final(self).interleaved@ == old(self).interleaved@
            },
    {
        match target {
            Layout::Interleaved => {
                if self.interleaved_stale {
                    let count = self.count;
                    let total: usize = self.interleaved.len();
                    assert(total == 4 * count);
                    let mut i: usize = 0;
                    while i < count
                        invariant
                            i <= count,
                            self.count == count,
                            4 * count <= usize::MAX,
                            self.interleaved@.len() == 4 * count,
                            self.col_x@.len() == count,
                            self.col_y@.len() == count,
                            self.col_vx@.len() == count,
                            self.col_vy@.len() == count,
                            self.col_x@ == old(self).col_x@,
                            self.col_y@ == old(self).col_y@,
                            self.col_vx@ == old(self).col_vx@,
                            self.col_vy@ == old(self).col_vy@,
                            self.columnar_stale == old(self).columnar_stale,
                            self.interleaved_stale == old(self).interleaved_stale,
                            self.kernel_available == old(self).kernel_available,
                            self.last_used_accelerator == old(self).last_used_accelerator,
                            forall|e: int|
                                0 <= e < i ==> self.interleaved@[4 * e] == self.col_x@[e]
                                    && self.interleaved@[4 * e + 1] == self.col_y@[e]
                                    && self.interleaved@[4 * e + 2] == self.col_vx@[e]
                                    && self.interleaved@[4 * e + 3] == self.col_vy@[e],
                        decreases count - i,
                    {
                        self.interleaved.set(4 * i, self.col_x[i]);
                        self.interleaved.set(4 * i + 1, self.col_y[i]);
                        self.interleaved.set(4 * i + 2, self.col_vx[i]);
                        self.interleaved.set(4 * i + 3, self.col_vy[i]);
                        i = i + 1;
                    }
                    proof {
                        assert forall|k: int| 0 <= k < 4 * count implies self.interleaved@[k]
                            == self.columnar_as_interleaved()[k] by {
                            assert(k == 4 * (k / 4) + k % 4);
                            assert(0 <= k % 4 < 4);
                            let e = k / 4;
                            assert(0 <= e < count);
                            assert(self.interleaved@[4 * e] == self.col_x@[e]);
                            assert(self.interleaved@[4 * e + 1] == self.col_y@[e]);
                            assert(self.interleaved@[4 * e + 2] == self.col_vx@[e]);
                            assert(self.interleaved@[4 * e + 3] == self.col_vy@[e]);
                        }
                        assert(self.interleaved@ =~= self.columnar_as_interleaved());
                    }
                    self.interleaved_stale = false;
                }
            },
            Layout::Columnar => {
                if self.columnar_stale {
                    let count = self.count;
                    let total: usize = self.interleaved.len();
                    assert(total == 4 * count);
                    let mut i: usize = 0;
                    while i < count
                        invariant
                            i <= count,
                            self.count == count,
                            4 * count <= usize::MAX,
                            self.interleaved@.len() == 4 * count,
                            self.col_x@.len() == count,
                            self.col_y@.len() == count,
                            self.col_vx@.len() == count,
                            self.col_vy@.len() == count,
                            self.interleaved@ == old(self).interleaved@,
                            self.columnar_stale == old(self).columnar_stale,
                            self.interleaved_stale == old(self).interleaved_stale,
                            self.kernel_available == old(self).kernel_available,
                            self.last_used_accelerator == old(self).last_used_accelerator,
                            forall|e: int|
                                0 <= e < i ==> self.col_x@[e] == self.interleaved@[4 * e]
                                    && self.col_y@[e] == self.interleaved@[4 * e + 1]
                                    && self.col_vx@[e] == self.interleaved@[4 * e + 2]
                                    && self.col_vy@[e] == self.interleaved@[4 * e + 3],
                        decreases count - i,
                    {
                        let vx = self.interleaved[4 * i];
                        let vy = self.interleaved[4 * i + 1];
                        let vvx = self.interleaved[4 * i + 2];
                        let vvy = self.interleaved[4 * i + 3];
                        self.col_x.set(i, vx);
                        self.col_y.set(i, vy);
                        self.col_vx.set(i, vvx);
                        self.col_vy.set(i, vvy);
                        i = i + 1;
                    }
                    proof {
                        assert forall|k: int| 0 <= k < 4 * count implies
                            self.columnar_as_interleaved()[k] == self.interleaved@[k] by {
                            assert(k == 4 * (k / 4) + k % 4);
                        }
                        assert(self.columnar_as_interleaved() =~= self.interleaved@);
                    }
                    self.columnar_stale = false;
                }
            },
        }
    }

    /// Install the columnar output of one accelerator step.
    ///
    /// `outcome` is whatever the dispatch produced: `None` when the launch
    /// or synchronize failed (the model is left untouched and the step is
    /// reported failed, so the execution loop can log and continue), or
    /// the updated columns. Columns that do not cover every entity are
    /// rejected whole. On success the columnar layout becomes
    /// authoritative and the interleaved layout is marked stale.
    pub fn commit_accelerator_step(&mut self, outcome: Option<ColumnarUpdate>) -> (r: Result<
        (),
        SimError,
    >)
        requires
            old(self).wf(),
        ensures
            final(self).wf(),
            final(self).count == old(self).count,
            final(self).kernel_available == old(self).kernel_available,
            outcome is None ==> r == Err::<(), SimError>(SimError::KernelDispatchFailed)
                && *final(self) == *old(self),
            outcome matches Some(u) ==> if u.covers(old(self).count) {
                &&& r is Ok
                &&& *final(self) == spec_commit_accelerator(*old(self), u)
                &&& final(self).state() == interleave(u.x@, u.y@, u.vx@, u.vy@)
            } else {
                &&& r == Err::<(), SimError>(SimError::FramingError)
                &&& *final(self) == *old(self)
            },
    {
        match outcome {
            None => Err(SimError::KernelDispatchFailed),
            Some(u) => {
                if !(u.x.len() == self.count && u.y.len() == self.count && u.vx.len()
                    == self.count && u.vy.len() == self.count) {
                    return Err(SimError::FramingError);
                }
                self.col_x = u.x;
                self.col_y = u.y;
                self.col_vx = u.vx;
                self.col_vy = u.vy;
                self.columnar_stale = false;
                self.interleaved_stale = true;
                self.last_used_accelerator = true;
                Ok(())
            },
        }
    }

    /// Install the interleaved output of one host step (`4 * count`
    /// words; any other length is rejected whole). On success the
    /// interleaved layout becomes authoritative and the columnar layout is
    /// marked stale.
    pub fn commit_host_step(&mut self, new_state: Vec<u32>) -> (r: Result<(), SimError>)
        requires
            old(self).wf(),
        ensures
            final(self).wf(),
            final(self).count == old(self).count,
            final(self).kernel_available == old(self).kernel_available,
            new_state@.len() == 4 * old(self).count ==> {
                &&& r is Ok
                &&& final(self).state() == new_state@
                &&& final(self).interleaved_stale == false
                &&& final(self).columnar_stale == true
                &&& final(self).last_used_accelerator == false
            },
            new_state@.len() != 4 * old(self).count ==> r == Err::<(), SimError>(
                SimError::FramingError,
            ) && *final(self) == *old(self),
    {
        if !(new_state.len() % 4 == 0 && new_state.len() / 4 == self.count) {
            return Err(SimError::FramingError);
        }
        self.interleaved = new_state;
        self.interleaved_stale = false;
        self.columnar_stale = true;
        self.last_used_accelerator = false;
        Ok(())
    }

    /// Read the full state in interleaved order, synchronizing first if
    /// the interleaved layout is stale — the one path that crosses from
    /// the columnar arrangement back to host-readable interleaved form.
    /// The logical state is unchanged by a read.
    pub fn read_interleaved(&mut self) -> (r: Vec<u32>)
        requires
            old(self).wf(),
        ensures
            final(self).wf(),
            r@ == old(self).state(),
            r@.len() == 4 * old(self).count,
            final(self).state() == old(self).state(),
            final(self).interleaved_stale == false,
            final(self).count == old(self).count,
            final(self).kernel_available == old(self).kernel_available,
            final(self).last_used_accelerator == old(self).last_used_accelerator,
    {
        self.sync(Layout::Interleaved);
        copy_words(&self.interleaved)
    }
}

/// The model state after a successful accelerator step committed `u`.
pub open spec fn spec_commit_accelerator(m: SimulationModel, u: ColumnarUpdate) -> SimulationModel {
    SimulationModel {
        count: m.count,
        interleaved: m.interleaved,
        col_x: u.x,
        col_y: u.y,
        col_vx: u.vx,
        col_vy: u.vy,
        columnar_stale: false,
        interleaved_stale: true,
        kernel_available: m.kernel_available,
        last_used_accelerator: true,
    }
}

/// Layout-consistency law: reading the interleaved state immediately
/// after a columnar-producing step observes exactly the values that step
/// committed — never a stale buffer. `read_words` is what
/// [`SimulationModel::read_interleaved`] returns on the post-step model,
/// per its contract.
pub proof fn lemma_layout_consistency(
    pre: SimulationModel,
    post: SimulationModel,
    u: ColumnarUpdate,
    read_words: Seq<u32>,
)
    requires
        pre.wf(),
        u.covers(pre.count),
        post == spec_commit_accelerator(pre, u),
        read_words == post.state(),
    ensures
        post.wf(),
        read_words == interleave(u.x@, u.y@, u.vx@, u.vy@),
{
}

/// An owned copy of a word buffer.
fn copy_words(src: &Vec<u32>) -> (r: Vec<u32>)
    ensures
        r@ == src@,
{
    let mut r: Vec<u32> = Vec::new();
    let mut i: usize = 0;
    while i < src.len()
        invariant
            i <= src@.len(),
            r@ == src@.take(i as int),
        decreases src@.len() - i,
    {
        r.push(src[i]);
        proof {
            assert(r@ =~= src@.take(i + 1 as int));
        }
        i = i + 1;
    }
    proof {
        assert(src@.take(src@.len() as int) =~= src@);
    }
    r
}

} // verus!
