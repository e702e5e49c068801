//! Bindless descriptor-slot allocator.
//!
//! Every resource category owns a dense space of `u32` identifiers. An
//! identifier is either *live* (handed out and not yet returned), *free*
//! (returned and waiting to be handed out again) or *unused* (at or above the
//! category's counter). The allocator always prefers the smallest free
//! identifier and only advances the counter when nothing is free.

use vstd::prelude::*;

verus! {

/// Number of descriptor slots reserved for samplers.
pub const SAMPLER_CAPACITY: u32 = 4096;

/// Number of descriptor slots reserved for each image category.
pub const IMAGE_CAPACITY: u32 = 1048576;

/// The categories of bindless resources; each has an id space of its own.
#[derive(Clone, Copy, Debug, PartialEq, Eq, Hash, Structural)]
pub enum ResourceType {
    Sampler,
    Image,
}

/// Number of slots the descriptor table holds for a category.
pub open spec fn spec_capacity(ty: ResourceType) -> nat {
    match ty {
        ResourceType::Sampler => SAMPLER_CAPACITY as nat,
        ResourceType::Image => IMAGE_CAPACITY as nat,
    }
}

/// Number of slots the descriptor table holds for a category.
pub fn capacity(ty: ResourceType) -> (cap: u32)
    ensures
        cap as nat == spec_capacity(ty),
{
    match ty {
        ResourceType::Sampler => SAMPLER_CAPACITY,
        ResourceType::Image => IMAGE_CAPACITY,
    }
}

/// Mathematical state of one category's identifier space.
pub ghost struct IdSpace {
    /// The next identifier that was never handed out.
    pub next: nat,
    /// The identifiers that were returned and not handed out again.
    pub free: Set<u32>,
}

impl IdSpace {
    /// The space in which nothing was ever handed out.
    pub open spec fn empty() -> IdSpace {
        IdSpace { next: 0, free: Set::empty() }
    }

    /// Every free identifier lies below the counter.
    pub open spec fn wf(self) -> bool {
        &&& self.free.finite()
        &&& forall|i: u32| self.free.contains(i) ==> (i as nat) < self.next
    }

    /// The identifiers currently held by some handle.
    pub open spec fn live(self) -> Set<u32> {
        Set::new(|i: u32| (i as nat) < self.next && !self.free.contains(i))
    }

    /// Whether another identifier can be handed out within `cap` slots.
    pub open spec fn has_room(self, cap: nat) -> bool {
        !self.free.is_empty() || self.next < cap
    }

    /// Whether `id` is the identifier that the next acquisition hands out:
    /// the smallest free one, or the counter when nothing is free.
    pub open spec fn issues(self, id: u32) -> bool {
        if self.free.is_empty() {
            id as nat == self.next
        } else {
            &&& self.free.contains(id)
            &&& forall|other: u32| self.free.contains(other) ==> id <= other
        }
    }

    /// The space after `id` was handed out.
    pub open spec fn take(self, id: u32) -> IdSpace {
        if self.free.is_empty() {
            IdSpace { next: self.next + 1, free: self.free }
        } else {
            IdSpace { next: self.next, free: self.free.remove(id) }
        }
    }

    /// The space after `id` was returned. Returning an identifier that is
    /// not live changes nothing.
    pub open spec fn give_back(self, id: u32) -> IdSpace {
        if self.live().contains(id) {
            IdSpace { next: self.next, free: self.free.insert(id) }
        } else {
            self
        }
    }
}

/// Counter and free list of one resource category.
pub struct IdInfo {
    id_counter: u32,
    recycled_ids: Vec<u32>,
}

impl IdInfo {
    /// The mathematical state this record stands for.
    pub closed spec fn space(&self) -> IdSpace {
        IdSpace { next: self.id_counter as nat, free: self.recycled_ids@.to_set() }
    }

    /// The free list holds no identifier twice and none at or above the
    /// counter.
    pub closed spec fn wf(&self) -> bool {
        &&& self.recycled_ids@.no_duplicates()
        &&& forall|k: int|
            0 <= k < self.recycled_ids@.len() ==> #[trigger] self.recycled_ids@[k] < self.id_counter
    }

    /// A well-formed record stands for a well-formed space.
    pub proof fn lemma_wf_space(&self)
        requires
            self.wf(),
        ensures
            self.space().wf(),
            self.space().next <= u32::MAX,
    {
        vstd::seq_lib::seq_to_set_is_finite(self.recycled_ids@);
    }

    /// A record in which nothing was ever handed out.
    pub fn new() -> (info: IdInfo)
        ensures
            info.wf(),
            info.space() == IdSpace::empty(),
    {
        let info = IdInfo { id_counter: 0, recycled_ids: Vec::new() };
        assert(info.recycled_ids@.to_set() =~= Set::<u32>::empty());
        info
    }

    /// Whether another identifier can be handed out within `cap` slots.
    pub fn has_room(&self, cap: u32) -> (room: bool)
        requires
            self.wf(),
        ensures
            room == self.space().has_room(cap as nat),
    {
        proof {
            if self.recycled_ids@.len() > 0 {
                assert(self.recycled_ids@.to_set().contains(self.recycled_ids@[0]));
            } else {
                assert(self.recycled_ids@.to_set() =~= Set::<u32>::empty());
            }
        }
        !self.recycled_ids.is_empty() || self.id_counter < cap
    }

    /// Index of the smallest entry of a non-empty free list.
    fn smallest_index(&self) -> (at: usize)
        requires
            self.recycled_ids@.len() > 0,
        ensures
            at < self.recycled_ids@.len(),
            forall|k: int|
                0 <= k < self.recycled_ids@.len() ==> self.recycled_ids@[at as int]
                    <= #[trigger] self.recycled_ids@[k],
    {
        let mut at: usize = 0;
        let mut i: usize = 1;
        while i < self.recycled_ids.len()
            invariant
                1 <= i <= self.recycled_ids@.len(),
                at < i,
                forall|k: int|
                    0 <= k < i ==> self.recycled_ids@[at as int] <= #[trigger] self.recycled_ids@[k],
            decreases self.recycled_ids@.len() - i,
        {
            if self.recycled_ids[i] < self.recycled_ids[at] {
                at = i;
            }
            i += 1;
        }
        at
    }

    /// Hands out the smallest free identifier, or the counter when nothing is
    /// free.
    pub fn acquire(&mut self) -> (id: u32)
        requires
            old(self).wf(),
            old(self).space().has_room(u32::MAX as nat),
        ensures
            final(self).wf(),
            old(self).space().issues(id),
            final(self).space() == old(self).space().take(id),
    {
        if self.recycled_ids.is_empty() {
            proof {
                assert(self.recycled_ids@.to_set() =~= Set::<u32>::empty());
            }
            let id = self.id_counter;
            self.id_counter = id + 1;
            id
        } else {
            let at = self.smallest_index();
            let ghost before = self.recycled_ids@;
            let id = self.recycled_ids.remove(at);
            proof {
                assert(before.to_set().contains(before[at as int]));
                assert forall|other: u32| before.to_set().contains(other) implies id <= other by {
                    let k = choose|k: int| 0 <= k < before.len() && before[k] == other;
                    assert(before[at as int] <= before[k]);
                }
                let after = self.recycled_ids@;
                assert forall|k: int| 0 <= k < after.len() implies #[trigger] after[k]
                    < self.id_counter by {
                    if k < at {
                        assert(after[k] == before[k]);
                    } else {
                        assert(after[k] == before[k + 1]);
                    }
                }
                assert forall|a: int, b: int|
                    0 <= a < after.len() && 0 <= b < after.len() && a != b implies after[a]
                    != after[b] by {
                    let a0 = if a < at { a } else { a + 1 };
                    let b0 = if b < at { b } else { b + 1 };
                    assert(after[a] == before[a0]);
                    assert(after[b] == before[b0]);
                }
                assert(after.to_set() =~= before.to_set().remove(id)) by {
                    assert forall|x: u32| after.to_set().contains(x) implies before.to_set().remove(
                        id,
                    ).contains(x) by {
                        let k = choose|k: int| 0 <= k < after.len() && after[k] == x;
                        let k0 = if k < at { k } else { k + 1 };
                        assert(before[k0] == x);
                        assert(k0 != at);
                    }
                    assert forall|x: u32| before.to_set().remove(id).contains(x) implies after.to_set(
                    ).contains(x) by {
                        let k = choose|k: int| 0 <= k < before.len() && before[k] == x;
                        assert(k != at);
                        let k1 = if k < at { k } else { k - 1 };
                        assert(after[k1] == x);
                    }
                }
            }
            id
        }
    }

    /// Returns `id` to the free list. The result says whether `id` was live;
    /// an identifier that is not live is left where it is.
    pub fn release(&mut self, id: u32) -> (was_live: bool)
        requires
            old(self).wf(),
        ensures
            final(self).wf(),
            was_live == old(self).space().live().contains(id),
            final(self).space() == old(self).space().give_back(id),
    {
        if id >= self.id_counter {
            return false;
        }
        let mut i: usize = 0;
        while i < self.recycled_ids.len()
            invariant
                *self == *old(self),
                self.wf(),
                id < self.id_counter,
                i <= self.recycled_ids@.len(),
                forall|k: int| 0 <= k < i ==> #[trigger] self.recycled_ids@[k] != id,
            decreases self.recycled_ids@.len() - i,
        {
            if self.recycled_ids[i] == id {
                proof {
                    assert(self.recycled_ids@.to_set().contains(self.recycled_ids@[i as int]));
                }
                return false;
            }
            i += 1;
        }
        let ghost before = self.recycled_ids@;
        proof {
            assert(!before.to_set().contains(id));
        }
        self.recycled_ids.push(id);
        proof {
            let after = self.recycled_ids@;
            assert(after =~= before.push(id));
            assert(after.to_set() =~= before.to_set().insert(id)) by {
                assert forall|x: u32| after.to_set().contains(x) implies before.to_set().insert(
                    id,
                ).contains(x) by {
                    let k = choose|k: int| 0 <= k < after.len() && after[k] == x;
                    if k < before.len() {
                        assert(before[k] == x);
                    }
                }
                assert forall|x: u32| before.to_set().insert(id).contains(x) implies after.to_set(
                ).contains(x) by {
                    if x == id {
                        assert(after[before.len() as int] == x);
                    } else {
                        let k = choose|k: int| 0 <= k < before.len() && before[k] == x;
                        assert(after[k] == x);
                    }
                }
            }
        }
        true
    }
}

/// The identifier spaces of all categories. A category's record is created
/// the first time an identifier of that category is asked for.
pub struct HandleTable {
    samplers: Option<IdInfo>,
    images: Option<IdInfo>,
}

impl HandleTable {
    /// Whether an identifier of category `ty` was ever asked for.
    pub closed spec fn touched(&self, ty: ResourceType) -> bool {
        match ty {
            ResourceType::Sampler => self.samplers is Some,
            ResourceType::Image => self.images is Some,
        }
    }

    /// The identifier space of category `ty`; empty until first used.
    pub closed spec fn space(&self, ty: ResourceType) -> IdSpace {
        match ty {
            ResourceType::Sampler => match self.samplers {
                Some(info) => info.space(),
                None => IdSpace::empty(),
            },
            ResourceType::Image => match self.images {
                Some(info) => info.space(),
                None => IdSpace::empty(),
            },
        }
    }

    /// Every record is well formed and stays within its category's slots.
    pub closed spec fn wf(&self) -> bool {
        &&& self.samplers matches Some(info) ==> info.wf() && info.space().next <= spec_capacity(
            ResourceType::Sampler,
        )
        &&& self.images matches Some(info) ==> info.wf() && info.space().next <= spec_capacity(
            ResourceType::Image,
        )
    }

    /// In a well-formed table every live identifier lies within the capacity
    /// of its category, and every space is well formed.
    pub proof fn law_live_ids_are_within_capacity(&self, ty: ResourceType)
        requires
            self.wf(),
        ensures
            self.space(ty).wf(),
            self.space(ty).next <= spec_capacity(ty),
            forall|id: u32| self.space(ty).live().contains(id) ==> (id as nat) < spec_capacity(ty),
    {
        match ty {
            ResourceType::Sampler => {
                if let Some(info) = self.samplers {
                    info.lemma_wf_space();
                }
            },
            ResourceType::Image => {
                if let Some(info) = self.images {
                    info.lemma_wf_space();
                }
            },
        }
    }

    /// A table in which no category was used yet.
    pub fn new() -> (table: HandleTable)
        ensures
            table.wf(),
            forall|ty: ResourceType| !table.touched(ty),
            forall|ty: ResourceType| table.space(ty) == IdSpace::empty(),
    {
        HandleTable { samplers: None, images: None }
    }

    /// Whether category `ty` can hand out another identifier.
    pub fn has_room(&self, ty: ResourceType) -> (room: bool)
        requires
            self.wf(),
        ensures
            room == self.space(ty).has_room(spec_capacity(ty)),
    {
        let slot = match ty {
            ResourceType::Sampler => &self.samplers,
            ResourceType::Image => &self.images,
        };
        match slot {
            Some(info) => info.has_room(capacity(ty)),
            None => true,
        }
    }

    /// Hands out an identifier of category `ty`: the smallest free one, or the
    /// category's counter when nothing is free. The other category is left
    /// untouched.
    pub fn acquire(&mut self, ty: ResourceType) -> (id: u32)
        requires
            old(self).wf(),
            old(self).space(ty).has_room(spec_capacity(ty)),
        ensures
            final(self).wf(),
            final(self).touched(ty),
            old(self).space(ty).issues(id),
            !old(self).space(ty).live().contains(id),
            final(self).space(ty).live() == old(self).space(ty).live().insert(id),
            (id as nat) < spec_capacity(ty),
            final(self).space(ty) == old(self).space(ty).take(id),
            forall|other: ResourceType|
                other != ty ==> final(self).space(other) == old(self).space(other)
                    && final(self).touched(other) == old(self).touched(other),
    {
        let taken = match ty {
            ResourceType::Sampler => self.samplers.take(),
            ResourceType::Image => self.images.take(),
        };
        let mut info = match taken {
            Some(info) => info,
            None => IdInfo::new(),
        };
        proof {
            info.lemma_wf_space();
        }
        let ghost before = info.space();
        let id = info.acquire();
        proof {
            info.lemma_wf_space();
            if !before.free.is_empty() {
                assert(before.free.contains(id));
            }
            law_issued_id_is_fresh(before, id);
        }
        match ty {
            ResourceType::Sampler => {
                self.samplers = Some(info);
            },
            ResourceType::Image => {
                self.images = Some(info);
            },
        }
        id
    }

    /// Returns `id` to category `ty`. The result says whether `id` was live;
    /// an identifier that is not live, or one of a category never used, is
    /// ignored.
    pub fn release(&mut self, ty: ResourceType, id: u32) -> (was_live: bool)
        requires
            old(self).wf(),
        ensures
            final(self).wf(),
            was_live == old(self).space(ty).live().contains(id),
            final(self).space(ty) == old(self).space(ty).give_back(id),
            forall|any: ResourceType| final(self).touched(any) == old(self).touched(any),
            forall|other: ResourceType|
                other != ty ==> final(self).space(other) == old(self).space(other),
    {
        let taken = match ty {
            ResourceType::Sampler => self.samplers.take(),
            ResourceType::Image => self.images.take(),
        };
        match taken {
            Some(info) => {
                let mut info = info;
                let was_live = info.release(id);
                match ty {
                    ResourceType::Sampler => {
                        self.samplers = Some(info);
                    },
                    ResourceType::Image => {
                        self.images = Some(info);
                    },
                }
                was_live
            },
            None => false,
        }
    }
}

/// One occupied slot of the bindless descriptor table.
#[derive(Debug)]
pub struct ResourceHandle {
    pub ty: ResourceType,
    pub id: u32,
}

impl ResourceHandle {
    /// The category whose id space the handle's slot belongs to.
    pub open spec fn category(&self) -> ResourceType {
        self.ty
    }

    /// Occupies a slot of category `ty` in `table`.
    pub fn new(table: &mut HandleTable, ty: ResourceType) -> (handle: ResourceHandle)
        requires
            old(table).wf(),
            old(table).space(ty).has_room(spec_capacity(ty)),
        ensures
            final(table).wf(),
            final(table).touched(ty),
            handle.category() == ty,
            old(table).space(ty).issues(handle.id),
            !old(table).space(ty).live().contains(handle.id),
            final(table).space(ty).live() == old(table).space(ty).live().insert(handle.id),
            (handle.id as nat) < spec_capacity(ty),
            final(table).space(ty) == old(table).space(ty).take(handle.id),
            forall|other: ResourceType|
                other != ty ==> final(table).space(other) == old(table).space(other)
                    && final(table).touched(other) == old(table).touched(other),
    {
        let id = table.acquire(ty);
        ResourceHandle { ty, id }
    }

    /// Gives the slot back to `table` and ends the handle. The result says
    /// whether the slot was live in `table`.
    pub fn release(self, table: &mut HandleTable) -> (was_live: bool)
        requires
            old(table).wf(),
        ensures
            final(table).wf(),
            was_live == old(table).space(self.category()).live().contains(self.id),
            final(table).space(self.category()) == old(table).space(self.category()).give_back(
                self.id,
            ),
            forall|any: ResourceType| final(table).touched(any) == old(table).touched(any),
            forall|other: ResourceType|
                other != self.category() ==> final(table).space(other) == old(table).space(other),
    {
        table.release(self.ty, self.id)
    }
}

/// An identifier that is handed out was not held by any handle, and is held
/// by exactly one more afterwards: live identifiers are never shared.
pub proof fn law_issued_id_is_fresh(space: IdSpace, id: u32)
    requires
        space.wf(),
        space.issues(id),
    ensures
        !space.live().contains(id),
        space.take(id).wf(),
        space.take(id).live() == space.live().insert(id),
{
    assert(space.take(id).live() =~= space.live().insert(id));
}

/// Two identifiers that are handed out one after the other, with no return
/// in between, differ: two handles that live at once never share a slot.
pub proof fn law_ids_issued_in_a_row_differ(space: IdSpace, first: u32, second: u32)
    requires
        space.wf(),
        space.issues(first),
        space.take(first).issues(second),
    ensures
        first != second,
        space.take(first).take(second).live() == space.live().insert(first).insert(second),
{
    law_issued_id_is_fresh(space, first);
    law_issued_id_is_fresh(space.take(first), second);
}

/// The identifier that is handed out next is determined by the space.
pub proof fn law_issue_is_unique(space: IdSpace, a: u32, b: u32)
    requires
        space.next <= u32::MAX,
        space.issues(a),
        space.issues(b),
    ensures
        a == b,
{
}

/// The counter advances exactly when no free identifier exists: a returned
/// identifier is never passed over in favour of an unused one.
pub proof fn law_counter_waits_for_free_ids(space: IdSpace, id: u32)
    requires
        space.wf(),
        space.issues(id),
    ensures
        space.take(id).next > space.next <==> space.free.is_empty(),
        !space.free.is_empty() ==> (id as nat) < space.next,
{
}

/// Returning a live identifier frees exactly that identifier.
pub proof fn law_release_frees_the_id(space: IdSpace, id: u32)
    requires
        space.wf(),
        space.live().contains(id),
    ensures
        space.give_back(id).wf(),
        space.give_back(id).live() == space.live().remove(id),
        space.give_back(id).next == space.next,
{
    assert(space.give_back(id).live() =~= space.live().remove(id));
}

/// After a live identifier was returned, the next acquisition reuses a
/// returned identifier no larger than it and leaves the counter alone.
pub proof fn law_released_id_is_reused_first(space: IdSpace, id: u32, next_id: u32)
    requires
        space.wf(),
        space.live().contains(id),
        space.give_back(id).issues(next_id),
    ensures
        next_id <= id,
        (next_id as nat) < space.next,
        space.give_back(id).take(next_id).next == space.next,
        space.free.is_empty() ==> next_id == id,
{
    let after = space.give_back(id);
    assert(after.free.contains(id));
}

/// One request made of an identifier space.
pub ghost enum IdRequest {
    /// Ask for an identifier.
    Acquire,
    /// Return the given identifier.
    Release(u32),
}

impl IdSpace {
    /// The identifier that the next acquisition hands out.
    pub open spec fn issued(self) -> u32 {
        choose|id: u32| self.issues(id)
    }

    /// The space after one request. An acquisition that finds no room within
    /// `cap` slots is not served.
    pub open spec fn serve(self, request: IdRequest, cap: nat) -> IdSpace {
        match request {
            IdRequest::Acquire => if self.has_room(cap) {
                self.take(self.issued())
            } else {
                self
            },
            IdRequest::Release(id) => self.give_back(id),
        }
    }

    /// The space after a sequence of requests, served in order.
    pub open spec fn serve_all(self, requests: Seq<IdRequest>, cap: nat) -> IdSpace
        decreases requests.len(),
    {
        if requests.len() == 0 {
            self
        } else {
            self.serve_all(requests.drop_last(), cap).serve(requests.last(), cap)
        }
    }
}

/// A non-empty set of identifiers none of which lies below `from` has a
/// smallest member.
proof fn lemma_smallest_exists(ids: Set<u32>, from: u32)
    requires
        !ids.is_empty(),
        forall|x: u32| ids.contains(x) ==> from <= x,
    ensures
        exists|m: u32| ids.contains(m) && forall|x: u32| ids.contains(x) ==> m <= x,
    decreases u32::MAX - from,
{
    if ids.contains(from) {
        assert(ids.contains(from) && forall|x: u32| ids.contains(x) ==> from <= x);
    } else {
        let witness = choose|x: u32| ids.contains(x);
        assert(from < witness);
        let above: u32 = (from + 1) as u32;
        assert forall|x: u32| ids.contains(x) implies above <= x by {
            assert(from <= x);
        }
        lemma_smallest_exists(ids, above);
    }
}

/// A well-formed space with room within `cap` slots always has an
/// identifier to hand out, and that identifier lies below `cap`.
pub proof fn law_space_with_room_issues(space: IdSpace, cap: nat)
    requires
        space.wf(),
        space.next <= cap <= u32::MAX,
        space.has_room(cap),
    ensures
        space.issues(space.issued()),
        (space.issued() as nat) < cap,
{
    if space.free.is_empty() {
        assert(space.issues(space.next as u32));
    } else {
        lemma_smallest_exists(space.free, 0);
        let m = choose|m: u32| space.free.contains(m) && forall|x: u32| space.free.contains(x) ==> m <= x;
        assert(space.issues(m));
    }
}

/// Whatever sequence of acquisitions and returns is served from an empty
/// space, the space stays well formed within its capacity, so every
/// acquisition along the way hands out an identifier that no live handle
/// holds.
pub proof fn law_any_request_sequence_keeps_ids_unique(requests: Seq<IdRequest>, cap: nat)
    requires
        cap <= u32::MAX,
    ensures
        IdSpace::empty().serve_all(requests, cap).wf(),
        IdSpace::empty().serve_all(requests, cap).next <= cap,
        IdSpace::empty().serve_all(requests, cap).has_room(cap) ==> !IdSpace::empty().serve_all(
            requests,
            cap,
        ).live().contains(IdSpace::empty().serve_all(requests, cap).issued()),
    decreases requests.len(),
{
    let end = IdSpace::empty().serve_all(requests, cap);
    if requests.len() > 0 {
        let prior = IdSpace::empty().serve_all(requests.drop_last(), cap);
        law_any_request_sequence_keeps_ids_unique(requests.drop_last(), cap);
        match requests.last() {
            IdRequest::Acquire => {
                if prior.has_room(cap) {
                    law_space_with_room_issues(prior, cap);
                    law_issued_id_is_fresh(prior, prior.issued());
                }
            },
            IdRequest::Release(id) => {
                if prior.live().contains(id) {
                    law_release_frees_the_id(prior, id);
                }
            },
        }
    }
    if end.has_room(cap) {
        law_space_with_room_issues(end, cap);
        law_issued_id_is_fresh(end, end.issued());
    }
}

} // verus!
