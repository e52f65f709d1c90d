//! The pool of reusable view instances.
//!
//! The pool is an arena of slots. A slot stands for one concrete view instance
//! that the host owns; it has the kind of template the instance was made from
//! and, while the instance is in use, the logical index it is attached to. A
//! handle names a slot by position and never owns it.

use vstd::prelude::*;

verus! {

/// Which reusable template a logical item is drawn with.
#[derive(Clone, Copy, Debug, PartialEq, Eq, Structural)]
pub enum KindTag {
    UserChatLine,
    ModelChatLine,
    HeaderRow,
    ItemRow,
    Header,
    AgentRow,
    Model,
}

/// A non-owning reference to a view instance of the pool.
#[derive(Clone, Copy, Debug, PartialEq, Eq, Structural)]
pub struct ViewHandle {
    pub kind: KindTag,
    pub slot: usize,
}

/// One view instance of the pool: its template, and the logical index that
/// uses it at the moment, if any.
#[derive(Clone, Copy, Debug)]
pub struct Slot {
    pub kind: KindTag,
    pub attached: Option<usize>,
}

/// The slot value of an instance of `kind` in use by `index`.
pub open spec fn in_use(kind: KindTag, index: usize) -> Slot {
    Slot { kind, attached: Some(index) }
}

/// The slot value of an instance of `kind` that no index uses.
pub open spec fn idle(kind: KindTag) -> Slot {
    Slot { kind, attached: None }
}

/// No logical index has two view instances.
pub open spec fn recycling_safe(slots: Seq<Slot>) -> bool {
    forall|a: int, b: int|
        0 <= a < slots.len() && 0 <= b < slots.len() && a != b && (
        #[trigger] slots[a]).attached is Some ==> slots[a].attached != (#[trigger] slots[b]).attached
}

/// `at` is the least position of `slots` that holds `want`.
pub open spec fn is_first_at(slots: Seq<Slot>, want: Slot, at: int) -> bool {
    &&& 0 <= at < slots.len()
    &&& slots[at] == want
    &&& forall|j: int| 0 <= j < at ==> slots[j] != want
}

/// The least position of `slots` that holds `want`, where there is one.
pub open spec fn first_position(slots: Seq<Slot>, want: Slot) -> int {
    choose|at: int| is_first_at(slots, want, at)
}

/// The pool with every instance taken back from `index`.
pub open spec fn detached(slots: Seq<Slot>, index: usize) -> Seq<Slot> {
    Seq::new(
        slots.len(),
        |i: int|
            if slots[i].attached == Some(index) {
                idle(slots[i].kind)
            } else {
                slots[i]
            },
    )
}

/// The pool after `index` asked for an instance of `kind`: unchanged where it
/// has one already; otherwise whatever `index` held is taken back, and the
/// first idle instance of `kind` is attached, or a new one where none is idle.
pub open spec fn after_resolve(slots: Seq<Slot>, index: usize, kind: KindTag) -> Seq<Slot> {
    if slots.contains(in_use(kind, index)) {
        slots
    } else {
        let cleared = detached(slots, index);
        if cleared.contains(idle(kind)) {
            cleared.update(first_position(cleared, idle(kind)), in_use(kind, index))
        } else {
            cleared.push(in_use(kind, index))
        }
    }
}

/// The slot that `index` gets when it asks for an instance of `kind`.
pub open spec fn resolved_slot(slots: Seq<Slot>, index: usize, kind: KindTag) -> int {
    first_position(after_resolve(slots, index, kind), in_use(kind, index))
}

/// The pool with every instance taken back whose index lies outside
/// `start..end`.
pub open spec fn released_outside(slots: Seq<Slot>, start: int, end: int) -> Seq<Slot> {
    Seq::new(
        slots.len(),
        |i: int|
            match slots[i].attached {
                Some(index) => if start <= index < end {
                    slots[i]
                } else {
                    idle(slots[i].kind)
                },
                None => slots[i],
            },
    )
}

/// A position that is the least one holding `want` is `first_position`.
pub proof fn lemma_first_position_unique(slots: Seq<Slot>, want: Slot, at: int)
    requires
        is_first_at(slots, want, at),
    ensures
        first_position(slots, want) == at,
{
    let chosen = first_position(slots, want);
    assert(is_first_at(slots, want, chosen));
    if chosen < at {
        assert(slots[chosen] != want);
    } else if at < chosen {
        assert(slots[at] != want);
    }
}

/// Where `want` occurs up to `bound`, it has a least position.
proof fn lemma_least_occurrence(slots: Seq<Slot>, want: Slot, bound: int) -> (at: int)
    requires
        0 <= bound < slots.len(),
        slots[bound] == want,
    ensures
        is_first_at(slots, want, at),
    decreases bound,
{
    if exists|j: int| 0 <= j < bound && slots[j] == want {
        let j = choose|j: int| 0 <= j < bound && slots[j] == want;
        lemma_least_occurrence(slots, want, j)
    } else {
        bound
    }
}

/// Where the pool holds `want`, `first_position` is its least position.
pub proof fn lemma_first_position_exists(slots: Seq<Slot>, want: Slot)
    requires
        slots.contains(want),
    ensures
        is_first_at(slots, want, first_position(slots, want)),
{
    let some = choose|i: int| 0 <= i < slots.len() && slots[i] == want;
    let at = lemma_least_occurrence(slots, want, some);
    lemma_first_position_unique(slots, want, at);
}

/// What asking for an instance does to the pool, slot by slot.
pub proof fn lemma_after_resolve(slots: Seq<Slot>, index: usize, kind: KindTag)
    requires
        recycling_safe(slots),
    ensures
        recycling_safe(after_resolve(slots, index, kind)),
        is_first_at(
            after_resolve(slots, index, kind),
            in_use(kind, index),
            resolved_slot(slots, index, kind),
        ),
        after_resolve(slots, index, kind).len() >= slots.len(),
        forall|i: int|
            0 <= i < slots.len() && i != resolved_slot(slots, index, kind) ==> (
            #[trigger] after_resolve(slots, index, kind)[i]) == detached(slots, index)[i],
        forall|i: int|
            0 <= i < slots.len() && slots[i].attached != Some(index) && slots[i].attached is Some
                ==> (#[trigger] after_resolve(slots, index, kind)[i]) == slots[i],
{
    let want = in_use(kind, index);
    let after = after_resolve(slots, index, kind);
    if slots.contains(want) {
        lemma_first_position_exists(slots, want);
        let at = first_position(slots, want);
        assert forall|i: int| 0 <= i < slots.len() && i != at implies #[trigger] after[i]
            == detached(slots, index)[i] by {
            assert(slots[at].attached is Some);
        }
    } else {
        let cleared = detached(slots, index);
        assert(recycling_safe(cleared)) by {
            assert forall|a: int, b: int|
                0 <= a < cleared.len() && 0 <= b < cleared.len() && a != b && (
                #[trigger] cleared[a]).attached is Some implies cleared[a].attached != (
            #[trigger] cleared[b]).attached by {
                assert(slots[a].attached is Some);
                assert(slots[a].attached != slots[b].attached);
            }
        }
        assert(forall|j: int| 0 <= j < cleared.len() ==> (#[trigger] cleared[j]).attached != Some(
            index,
        ));
        if cleared.contains(idle(kind)) {
            lemma_first_position_exists(cleared, idle(kind));
            let at = first_position(cleared, idle(kind));
            assert(after[at] == want);
            assert(is_first_at(after, want, at));
            lemma_first_position_unique(after, want, at);
            assert(recycling_safe(after)) by {
                assert forall|a: int, b: int|
                    0 <= a < after.len() && 0 <= b < after.len() && a != b && (
                    #[trigger] after[a]).attached is Some implies after[a].attached != (
                #[trigger] after[b]).attached by {
                    if a != at {
                        assert(cleared[a].attached is Some);
                    }
                    if b != at {
                        assert(cleared[b].attached != Some(index));
                    }
                    if a != at && b != at {
                        assert(cleared[a].attached != cleared[b].attached);
                    }
                }
            }
        } else {
            let at = cleared.len() as int;
            assert(after[at] == want);
            assert(is_first_at(after, want, at));
            lemma_first_position_unique(after, want, at);
            assert(recycling_safe(after)) by {
                assert forall|a: int, b: int|
                    0 <= a < after.len() && 0 <= b < after.len() && a != b && (
                    #[trigger] after[a]).attached is Some implies after[a].attached != (
                #[trigger] after[b]).attached by {
                    if a != at {
                        assert(cleared[a].attached is Some);
                    }
                    if b != at {
                        assert(cleared[b].attached != Some(index));
                    }
                    if a != at && b != at {
                        assert(cleared[a].attached != cleared[b].attached);
                    }
                }
            }
        }
    }
}

/// Asking twice for the same index and kind gives the same view instance, and
/// the second request changes nothing.
pub proof fn lemma_resolve_idempotent(slots: Seq<Slot>, index: usize, kind: KindTag)
    requires
        recycling_safe(slots),
    ensures
        after_resolve(after_resolve(slots, index, kind), index, kind) == after_resolve(
            slots,
            index,
            kind,
        ),
        resolved_slot(after_resolve(slots, index, kind), index, kind) == resolved_slot(
            slots,
            index,
            kind,
        ),
{
    lemma_after_resolve(slots, index, kind);
    let after = after_resolve(slots, index, kind);
    assert(after[resolved_slot(slots, index, kind)] == in_use(kind, index));
    assert(after.contains(in_use(kind, index)));
}

/// A request for another index in between does not move the view instance of
/// an index: asked again, it gets the instance it had.
pub proof fn lemma_resolve_keeps_other_views(
    slots: Seq<Slot>,
    index: usize,
    kind: KindTag,
    other: usize,
    other_kind: KindTag,
)
    requires
        recycling_safe(slots),
        other != index,
    ensures
        resolved_slot(
            after_resolve(after_resolve(slots, index, kind), other, other_kind),
            index,
            kind,
        ) == resolved_slot(slots, index, kind),
{
    let want = in_use(kind, index);
    let first = after_resolve(slots, index, kind);
    let at = resolved_slot(slots, index, kind);
    lemma_after_resolve(slots, index, kind);
    lemma_after_resolve(first, other, other_kind);
    let second = after_resolve(first, other, other_kind);
    assert(second[at] == first[at]);
    assert forall|j: int| 0 <= j < at implies second[j] != want by {
        let took = resolved_slot(first, other, other_kind);
        assert(second[took] == in_use(other_kind, other));
        if j != took {
            assert(second[j] == detached(first, other)[j]);
        }
    }
    assert(is_first_at(second, want, at));
    assert(second.contains(want));
    lemma_first_position_unique(second, want, at);
}

/// The arena of view instances.
pub struct RecycledViewPool {
    slots: Vec<Slot>,
}

impl View for RecycledViewPool {
    type V = Seq<Slot>;

    closed spec fn view(&self) -> Seq<Slot> {
        self.slots@
    }
}

impl RecycledViewPool {
    /// The pool's invariant: no logical index has two view instances.
    pub open spec fn wf(&self) -> bool {
        recycling_safe(self@)
    }

    /// An empty pool: instances are made on first need.
    pub fn new() -> (pool: RecycledViewPool)
        ensures
            pool.wf(),
            pool@ == Seq::<Slot>::empty(),
    {
        RecycledViewPool { slots: Vec::new() }
    }

    /// How many view instances the pool has made so far.
    pub fn len(&self) -> (n: usize)
        ensures
            n == self@.len(),
    {
        self.slots.len()
    }

    /// The slot behind a handle's position, if the pool has one there.
    pub fn slot(&self, at: usize) -> (found: Option<Slot>)
        ensures
            found == if at < self@.len() {
                Some(self@[at as int])
            } else {
                None
            },
    {
        if at < self.slots.len() {
            Some(self.slots[at])
        } else {
            None
        }
    }

    /// The least position that holds exactly `want`.
    fn find(&self, want: Slot) -> (found: Option<usize>)
        ensures
            found is Some <==> self@.contains(want),
            found matches Some(at) ==> is_first_at(self@, want, at as int),
    {
        let mut i: usize = 0;
        while i < self.slots.len()
            invariant
                i <= self.slots.len(),
                forall|j: int| 0 <= j < i ==> self.slots@[j] != want,
            decreases self.slots.len() - i,
        {
            let slot = self.slots[i];
            let same_index = match (slot.attached, want.attached) {
                (Some(a), Some(b)) => a == b,
                (None, None) => true,
                _ => false,
            };
            if slot.kind == want.kind && same_index {
                assert(self.slots@[i as int] == want);
                return Some(i);
            }
            i += 1;
        }
        None
    }

    /// Takes back every instance that `index` holds.
    fn detach(&mut self, index: usize)
        ensures
            final(self)@ == detached(old(self)@, index),
    {
        let mut i: usize = 0;
        while i < self.slots.len()
            invariant
                i <= self.slots.len(),
                self.slots@.len() == old(self).slots@.len(),
                forall|j: int| 0 <= j < i ==> self.slots@[j] == detached(old(self).slots@, index)[j],
                forall|j: int| i <= j < self.slots@.len() ==> self.slots@[j] == old(self).slots@[j],
            decreases self.slots.len() - i,
        {
            let slot = self.slots[i];
            let held = match slot.attached {
                Some(a) => a == index,
                None => false,
            };
            if held {
                self.slots[i] = Slot { kind: slot.kind, attached: None };
            }
            i += 1;
        }
        assert(self.slots@ =~= detached(old(self).slots@, index));
    }

    /// Returns the view instance of `kind` for `index`: the one it has, else
    /// the first idle one of that kind, else a new one.
    pub fn resolve(&mut self, index: usize, kind: KindTag) -> (handle: ViewHandle)
        requires
            old(self).wf(),
        ensures
            final(self).wf(),
            final(self)@ == after_resolve(old(self)@, index, kind),
            handle.kind == kind,
            handle.slot == resolved_slot(old(self)@, index, kind),
            is_first_at(final(self)@, in_use(kind, index), handle.slot as int),
    {
        proof {
            lemma_after_resolve(self@, index, kind);
        }
        let want = Slot { kind, attached: Some(index) };
        match self.find(want) {
            Some(at) => ViewHandle { kind, slot: at },
            None => {
                self.detach(index);
                match self.find(Slot { kind, attached: None }) {
                    Some(at) => {
                        proof {
                            lemma_first_position_unique(self@, idle(kind), at as int);
                        }
                        self.slots[at] = want;
                        ViewHandle { kind, slot: at }
                    },
                    None => {
                        let at = self.slots.len();
                        self.slots.push(want);
                        ViewHandle { kind, slot: at }
                    },
                }
            },
        }
    }

    /// Takes back every instance whose index lies outside `start..end`.
    pub fn release_outside(&mut self, start: usize, end: usize)
        requires
            old(self).wf(),
        ensures
            final(self).wf(),
            final(self)@ == released_outside(old(self)@, start as int, end as int),
    {
        let mut i: usize = 0;
        while i < self.slots.len()
            invariant
                i <= self.slots.len(),
                self.slots@.len() == old(self).slots@.len(),
                forall|j: int|
                    0 <= j < i ==> self.slots@[j] == released_outside(
                        old(self).slots@,
                        start as int,
                        end as int,
                    )[j],
                forall|j: int| i <= j < self.slots@.len() ==> self.slots@[j] == old(self).slots@[j],
            decreases self.slots.len() - i,
        {
            let slot = self.slots[i];
            let outside = match slot.attached {
                Some(a) => a < start || a >= end,
                None => false,
            };
            if outside {
                self.slots[i] = Slot { kind: slot.kind, attached: None };
            }
            i += 1;
        }
        assert(self.slots@ =~= released_outside(old(self).slots@, start as int, end as int));
        proof {
            lemma_release_keeps_safety(old(self)@, start as int, end as int);
        }
    }
}

/// Taking instances back cannot give an index a second one, and it leaves no
/// instance with an index outside the range; within the range every index
/// keeps the instance it had.
pub proof fn lemma_release_keeps_safety(slots: Seq<Slot>, start: int, end: int)
    requires
        recycling_safe(slots),
    ensures
        recycling_safe(released_outside(slots, start, end)),
        forall|at: int|
            0 <= at < slots.len() ==> match (#[trigger] released_outside(
                slots,
                start,
                end,
            )[at]).attached {
                Some(index) => start <= index < end && slots[at].attached == Some(index),
                None => true,
            },
        forall|at: int|
            0 <= at < slots.len() && (#[trigger] slots[at]).attached is Some && start
                <= slots[at].attached->0 < end ==> released_outside(slots, start, end)[at]
                == slots[at],
{
    let after = released_outside(slots, start, end);
    assert forall|a: int, b: int|
        0 <= a < after.len() && 0 <= b < after.len() && a != b && (
        #[trigger] after[a]).attached is Some implies after[a].attached != (
    #[trigger] after[b]).attached by {
        assert(slots[a].attached is Some);
        assert(slots[a].attached != slots[b].attached);
    }
}

} // verus!
