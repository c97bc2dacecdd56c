//! The hot-reload coordinator.
//!
//! One coordinator owns the live simulation value and the passage from one
//! generation of the script to the next. A reload runs through four phases:
//! the request saves the live value as bytes; the host recompiles; the saved
//! bytes are migrated into the value that the new generation started with;
//! the result is installed. A request that arrives while a reload is under way
//! is queued and served when that reload has settled. A failed recompile
//! leaves the live value as it was and raises the error flag, which holds the
//! ticks back until a recompile succeeds.

use vstd::prelude::*;
use crate::codec::{encode, readable, serialize, strings_fit};
use crate::migrate::{
    lemma_conforms_all_len, migrate, migrated, theorem_reload_under_added_fields,
};
use crate::value::{conforms, ScriptValue, StructModel, StructType, TypeModel, ValueModel};

verus! {

/// The size of the buffer that carries the live value over a reload.
pub const SNAPSHOT_CAPACITY: usize = 2048;

/// Where the coordinator stands in a reload.
#[derive(Debug, Clone, Copy, PartialEq, Eq, Structural)]
pub enum ReloadPhase {
    Idle,
    ReloadRequested,
    Recompiling,
    Migrating,
}

/// The simulation state of one generation: the struct's layout and its value.
#[derive(Debug, PartialEq, Eq)]
pub struct Generation {
    pub layout: StructType,
    pub value: ScriptValue,
}

/// Mathematical model of a generation's simulation state.
pub struct GenerationModel {
    pub layout: StructModel,
    pub value: ValueModel,
}

impl View for Generation {
    type V = GenerationModel;

    open spec fn view(&self) -> GenerationModel {
        GenerationModel { layout: self.layout@, value: self.value@ }
    }
}

/// Mathematical model of the coordinator.
pub struct CoordinatorModel {
    pub phase: ReloadPhase,
    /// How many generations were installed.
    pub generation: u64,
    /// The live state; none before the first generation is installed.
    pub live: Option<GenerationModel>,
    /// The compiled generation that waits to be migrated into.
    pub pending: Option<GenerationModel>,
    /// The bytes saved when the reload was requested.
    pub saved: Seq<u8>,
    pub has_errors: bool,
    /// Whether a request arrived while a reload was under way.
    pub queued: bool,
}

/// The coordinator.
#[derive(Debug)]
pub struct Coordinator {
    phase: ReloadPhase,
    generation: u64,
    live: Option<Generation>,
    pending: Option<Generation>,
    saved: Vec<u8>,
    has_errors: bool,
    queued: bool,
}

/// The model of an optional generation.
pub open spec fn generation_view(generation: Option<Generation>) -> Option<GenerationModel> {
    match generation {
        Some(g) => Some(g@),
        None => None,
    }
}

impl View for Coordinator {
    type V = CoordinatorModel;

    closed spec fn view(&self) -> CoordinatorModel {
        CoordinatorModel {
            phase: self.phase,
            generation: self.generation,
            live: generation_view(self.live),
            pending: generation_view(self.pending),
            saved: self.saved@,
            has_errors: self.has_errors,
            queued: self.queued,
        }
    }
}

/// The coordinator before anything was compiled.
pub open spec fn initial() -> CoordinatorModel {
    CoordinatorModel {
        phase: ReloadPhase::Idle,
        generation: 0,
        live: None,
        pending: None,
        saved: Seq::empty(),
        has_errors: false,
        queued: false,
    }
}

/// The bytes that a request saves: the live value's serialized form, or
/// nothing where there is no live value or it does not fit the buffer.
pub open spec fn saved_bytes(live: Option<GenerationModel>) -> Seq<u8> {
    match live {
        Some(g) => if strings_fit(g.value) && encode(g.value).len() <= SNAPSHOT_CAPACITY {
            encode(g.value)
        } else {
            Seq::empty()
        },
        None => Seq::empty(),
    }
}

/// A reload is requested: an idle coordinator saves the live value and waits
/// for the recompile; a busy one notes the request for later.
pub open spec fn after_request(m: CoordinatorModel) -> CoordinatorModel {
    if m.phase == ReloadPhase::Idle {
        CoordinatorModel { phase: ReloadPhase::ReloadRequested, saved: saved_bytes(m.live), ..m }
    } else {
        CoordinatorModel { queued: true, ..m }
    }
}

/// The host starts to recompile.
pub open spec fn after_begin(m: CoordinatorModel) -> CoordinatorModel {
    if m.phase == ReloadPhase::ReloadRequested {
        CoordinatorModel { phase: ReloadPhase::Recompiling, ..m }
    } else {
        m
    }
}

/// A reload has come to its end: a queued request is served now, else the
/// coordinator is idle.
pub open spec fn settled(m: CoordinatorModel) -> CoordinatorModel {
    if m.queued {
        CoordinatorModel {
            phase: ReloadPhase::ReloadRequested,
            queued: false,
            saved: saved_bytes(m.live),
            ..m
        }
    } else {
        CoordinatorModel { phase: ReloadPhase::Idle, ..m }
    }
}

/// The recompile failed: the attempt is dropped, the live value stays and the
/// error flag is raised.
pub open spec fn after_failure(m: CoordinatorModel) -> CoordinatorModel {
    if m.phase == ReloadPhase::Recompiling {
        settled(CoordinatorModel { has_errors: true, ..m })
    } else {
        m
    }
}

/// The recompile gave a new generation, which now waits for the saved state.
pub open spec fn after_compiled(m: CoordinatorModel, fresh: GenerationModel) -> CoordinatorModel {
    if m.phase == ReloadPhase::Recompiling {
        CoordinatorModel { phase: ReloadPhase::Migrating, pending: Some(fresh), ..m }
    } else {
        m
    }
}

/// The generation count after one more was installed; it stops at the largest
/// number it can hold.
pub open spec fn next_generation(generation: u64) -> u64 {
    if generation < u64::MAX {
        (generation + 1) as u64
    } else {
        generation
    }
}

/// The saved state is migrated into the waiting generation, which becomes the
/// live one; the error flag is cleared.
pub open spec fn after_install(m: CoordinatorModel) -> CoordinatorModel {
    match m.pending {
        Some(fresh) => if m.phase == ReloadPhase::Migrating {
            settled(
                CoordinatorModel {
                    live: Some(
                        GenerationModel {
                            layout: fresh.layout,
                            value: migrated(fresh.layout, fresh.value, m.saved),
                        },
                    ),
                    pending: None,
                    generation: next_generation(m.generation),
                    has_errors: false,
                    ..m
                },
            )
        } else {
            m
        },
        None => m,
    }
}

/// The host hands back the live value after a tick. It is taken only while
/// ticks may run.
pub open spec fn after_tick(m: CoordinatorModel, value: ValueModel) -> CoordinatorModel {
    match m.live {
        Some(g) => if ticks_may_run(m) {
            CoordinatorModel { live: Some(GenerationModel { layout: g.layout, value }), ..m }
        } else {
            m
        },
        None => m,
    }
}

/// Whether ticks and renders may run: there is a live value, no reload is
/// under way and no error is pending.
pub open spec fn ticks_may_run(m: CoordinatorModel) -> bool {
    m.phase == ReloadPhase::Idle && !m.has_errors && m.live is Some
}

impl Coordinator {
    /// A coordinator before anything was compiled.
    pub fn new() -> (coordinator: Self)
        ensures
            coordinator@ == initial(),
    {
        Self {
            phase: ReloadPhase::Idle,
            generation: 0,
            live: None,
            pending: None,
            saved: Vec::new(),
            has_errors: false,
            queued: false,
        }
    }

    /// Where the coordinator stands in a reload.
    pub fn phase(&self) -> (phase: ReloadPhase)
        ensures
            phase == self@.phase,
    {
        self.phase
    }

    /// How many generations were installed.
    pub fn generation(&self) -> (generation: u64)
        ensures
            generation == self@.generation,
    {
        self.generation
    }

    /// Whether the last recompile failed.
    pub fn has_errors(&self) -> (flag: bool)
        ensures
            flag == self@.has_errors,
    {
        self.has_errors
    }

    /// The live state, if a generation was installed.
    pub fn live(&self) -> (live: Option<&Generation>)
        ensures
            match live {
                Some(g) => self@.live == Some(g@),
                None => self@.live is None,
            },
    {
        self.live.as_ref()
    }

    /// Tells whether ticks and renders may run.
    pub fn may_tick(&self) -> (run: bool)
        ensures
            run == ticks_may_run(self@),
    {
        self.phase == ReloadPhase::Idle && !self.has_errors && self.live.is_some()
    }

    fn save(&mut self)
        ensures
            final(self)@ == (CoordinatorModel { saved: saved_bytes(old(self)@.live), ..old(self)@ }),
    {
        let bytes = match &self.live {
            Some(g) => match serialize(&g.value, SNAPSHOT_CAPACITY) {
                Ok(bytes) => bytes,
                Err(_) => Vec::new(),
            },
            None => Vec::new(),
        };
        self.saved = bytes;
    }

    fn settle(&mut self)
        ensures
            final(self)@ == settled(old(self)@),
    {
        if self.queued {
            self.save();
            self.queued = false;
            self.phase = ReloadPhase::ReloadRequested;
        } else {
            self.phase = ReloadPhase::Idle;
        }
    }

    /// Takes a reload signal.
    pub fn request_reload(&mut self)
        ensures
            final(self)@ == after_request(old(self)@),
    {
        if self.phase == ReloadPhase::Idle {
            self.save();
            self.phase = ReloadPhase::ReloadRequested;
        } else {
            self.queued = true;
        }
    }

    /// Starts the recompile of a requested reload. Tells whether the host is
    /// to compile now.
    pub fn begin_recompile(&mut self) -> (compile: bool)
        ensures
            final(self)@ == after_begin(old(self)@),
            compile == (old(self)@.phase == ReloadPhase::ReloadRequested),
    {
        if self.phase == ReloadPhase::ReloadRequested {
            self.phase = ReloadPhase::Recompiling;
            true
        } else {
            false
        }
    }

    /// Takes the news that the recompile or the bootstrap failed.
    pub fn recompile_failed(&mut self)
        ensures
            final(self)@ == after_failure(old(self)@),
    {
        if self.phase == ReloadPhase::Recompiling {
            self.has_errors = true;
            self.settle();
        }
    }

    /// Takes the generation that the recompile and the bootstrap gave.
    pub fn recompile_succeeded(&mut self, fresh: Generation)
        ensures
            final(self)@ == after_compiled(old(self)@, fresh@),
    {
        if self.phase == ReloadPhase::Recompiling {
            self.pending = Some(fresh);
            self.phase = ReloadPhase::Migrating;
        }
    }

    /// Migrates the saved state into the waiting generation and installs it.
    pub fn install(&mut self)
        ensures
            final(self)@ == after_install(old(self)@),
    {
        if self.phase == ReloadPhase::Migrating {
            let pending = self.pending.take();
            match pending {
                Some(fresh) => {
                    let Generation { layout, value } = fresh;
                    let value = migrate(&layout, value, self.saved.as_slice());
                    self.live = Some(Generation { layout, value });
                    if self.generation < u64::MAX {
                        self.generation = self.generation + 1;
                    }
                    self.has_errors = false;
                    self.settle();
                },
                None => {},
            }
        }
    }

    /// Puts back the live value after a tick. Tells whether it was taken.
    pub fn store_live_value(&mut self, value: ScriptValue) -> (taken: bool)
        ensures
            final(self)@ == after_tick(old(self)@, value@),
            taken == ticks_may_run(old(self)@),
    {
        if self.may_tick() {
            let live = self.live.take();
            match live {
                Some(g) => {
                    let Generation { layout, value: _ } = g;
                    self.live = Some(Generation { layout, value });
                    true
                },
                None => false,
            }
        } else {
            false
        }
    }
}


/// One whole reload of an idle coordinator: request, recompile, migrate, install.
pub open spec fn after_reload(m: CoordinatorModel, fresh: GenerationModel) -> CoordinatorModel {
    after_install(after_compiled(after_begin(after_request(m)), fresh))
}

/// One whole reload whose recompile fails.
pub open spec fn after_failed_reload(m: CoordinatorModel) -> CoordinatorModel {
    after_failure(after_begin(after_request(m)))
}

/// A reload carries the live value over: where the new generation's struct has
/// the fields of the old one, in the same order and of the same types, the
/// live value after the reload is the live value before it, not the value that
/// the new generation started with.
pub proof fn theorem_reload_keeps_live_value(
    m: CoordinatorModel,
    live: GenerationModel,
    fresh: GenerationModel,
)
    requires
        m.phase == ReloadPhase::Idle,
        !m.queued,
        m.live == Some(live),
        conforms(live.value, TypeModel::Struct(live.layout)),
        conforms(fresh.value, TypeModel::Struct(fresh.layout)),
        fresh.layout.field_types == live.layout.field_types,
        readable(TypeModel::Struct(live.layout)),
        strings_fit(live.value),
        encode(live.value).len() <= SNAPSHOT_CAPACITY,
    ensures
        after_reload(m, fresh).live == Some(
            GenerationModel { layout: fresh.layout, value: live.value },
        ),
        after_reload(m, fresh).phase == ReloadPhase::Idle,
        after_reload(m, fresh).has_errors == false,
        after_reload(m, fresh).generation == next_generation(m.generation),
{
    let types = live.layout.field_types;
    assert(types.take(types.len() as int) =~= types);
    theorem_reload_under_added_fields(live.layout, fresh.layout, live.value, fresh.value);
    let slots = live.value->Struct_0;
    let fresh_slots = fresh.value->Struct_0;
    lemma_conforms_all_len(slots, types);
    lemma_conforms_all_len(fresh_slots, types);
    assert(slots + fresh_slots.skip(slots.len() as int) =~= slots);
}

/// A failed recompile installs nothing: the live value, the generation count
/// and the saved bytes stay, the error flag is raised, and ticks are held back.
pub proof fn theorem_failed_reload_keeps_generation(m: CoordinatorModel)
    requires
        m.phase == ReloadPhase::Idle,
        !m.queued,
    ensures
        after_failed_reload(m).live == m.live,
        after_failed_reload(m).generation == m.generation,
        after_failed_reload(m).phase == ReloadPhase::Idle,
        after_failed_reload(m).has_errors,
        !ticks_may_run(after_failed_reload(m)),
        forall|value: ValueModel|
            after_tick(after_failed_reload(m), value) == after_failed_reload(m),
{
}

/// A request that arrives while a reload is under way is queued, not
/// interleaved: it changes nothing but the note that it arrived, and it is
/// served when the reload settles, from the value that is live then.
pub proof fn theorem_request_during_reload_is_queued(m: CoordinatorModel)
    requires
        m.phase != ReloadPhase::Idle,
    ensures
        after_request(m) == (CoordinatorModel { queued: true, ..m }),
        settled(after_request(m)).phase == ReloadPhase::ReloadRequested,
        !settled(after_request(m)).queued,
        settled(after_request(m)).saved == saved_bytes(m.live),
        settled(after_request(m)).live == m.live,
{
}


/// The coordinator's invariant: a generation waits to be migrated into
/// exactly while the coordinator is migrating, and an idle coordinator has no
/// request queued.
pub open spec fn well_formed(m: CoordinatorModel) -> bool {
    &&& (m.phase == ReloadPhase::Migrating) == (m.pending is Some)
    &&& m.phase == ReloadPhase::Idle ==> !m.queued
}

/// The coordinator starts within its invariant, and every event keeps it
/// there.
pub proof fn theorem_events_keep_the_invariant(
    m: CoordinatorModel,
    fresh: GenerationModel,
    value: ValueModel,
)
    requires
        well_formed(m),
    ensures
        well_formed(initial()),
        well_formed(after_request(m)),
        well_formed(after_begin(m)),
        well_formed(after_failure(m)),
        well_formed(after_compiled(m, fresh)),
        well_formed(after_install(m)),
        well_formed(after_tick(m, value)),
{
}

} // verus!
