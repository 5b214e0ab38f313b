use vstd::prelude::*;

verus! {

/// The owner model of the buffer exchange with the host.
///
/// The host and the module share no ownership model, so every buffer that
/// crosses the boundary is represented here by a handle with exactly one
/// owner at a time: allocation mints the handle, release consumes it, and
/// reading or writing demands a live handle. Releasing a buffer leaves every
/// other buffer untouched, a released handle stays dead, and later
/// allocations mint handles that never collide with an earlier one — so no
/// released buffer is observable by any subsequent, unrelated call.
pub struct MemoryBridge {
    slots: Vec<Option<Vec<u8>>>,
}

impl View for MemoryBridge {
    type V = Seq<Option<Seq<u8>>>;

    closed spec fn view(&self) -> Seq<Option<Seq<u8>>> {
        self.slots.deep_view()
    }
}

impl MemoryBridge {
    /// A handle is live while its buffer is allocated and not yet released.
    pub open spec fn live(self, h: int) -> bool {
        0 <= h < self@.len() && self@[h] is Some
    }

    /// The bytes of the live buffer behind handle `h`.
    pub open spec fn contents(self, h: int) -> Seq<u8>
        recommends
            self.live(h),
    {
        self@[h]->0
    }

    /// A bridge that owns no buffers.
    pub fn new() -> (b: MemoryBridge)
        ensures
            b@.len() == 0,
    {
        MemoryBridge { slots: Vec::new() }
    }

    /// Reserves a zero-filled buffer of exactly `size` bytes and hands its
    /// fresh handle to the caller, who thereafter owns the buffer. Every
    /// buffer already allocated is left untouched, and the handle collides
    /// with no earlier one.
    pub fn allocate(&mut self, size: usize) -> (h: usize)
        ensures
            h == old(self)@.len(),
            final(self)@.len() == old(self)@.len() + 1,
            forall|j: int| 0 <= j < old(self)@.len() ==> final(self)@[j] == old(self)@[j],
            final(self).live(h as int),
            final(self).contents(h as int) =~= Seq::new(size as nat, |i: int| 0u8),
    {
        let mut buf: Vec<u8> = Vec::new();
        let mut i: usize = 0;
        while i < size
            invariant
                i <= size,
                buf@.len() == i,
                forall|k: int| 0 <= k < i ==> buf@[k] == 0u8,
            decreases size - i,
        {
            buf.push(0u8);
            i = i + 1;
        }
        let h = self.slots.len();
        self.slots.push(Some(buf));
        proof {
            assert forall|j: int| 0 <= j < old(self)@.len() implies final(self)@[j] == old(
                self,
            )@[j] by {
                assert(final(self).slots@[j] == old(self).slots@[j]);
            }
        }
        h
    }

    /// Replaces the bytes of the live buffer behind `h`, as the host does
    /// when it writes a serialized request into memory it allocated.
    pub fn write(&mut self, h: usize, bytes: Vec<u8>)
        requires
            old(self).live(h as int),
        ensures
            final(self)@ =~= old(self)@.update(h as int, Some(bytes@)),
    {
        self.slots.set(h, Some(bytes));
        proof {
            assert forall|j: int| 0 <= j < final(self)@.len() implies final(self)@[j] == old(
                self,
            )@.update(h as int, Some(bytes@))[j] by {
                assert(final(self).slots@[j] == old(self).slots@.update(h as int, Some(bytes))[j]);
            }
        }
    }

    /// Reads the live buffer behind `h` without disturbing any ownership.
    pub fn read(&self, h: usize) -> (b: &Vec<u8>)
        requires
            self.live(h as int),
        ensures
            b@ == self.contents(h as int),
    {
        match &self.slots[h] {
            Some(v) => v,
            None => vstd::pervasive::unreached(),
        }
    }

    /// Releases the buffer behind `h`, consuming the handle's ownership:
    /// the slot is dead afterwards, and every other buffer is untouched, so
    /// nothing dangles for a subsequent call to observe.
    pub fn release(&mut self, h: usize)
        requires
            old(self).live(h as int),
        ensures
            final(self)@ =~= old(self)@.update(h as int, None),
    {
        self.slots.set(h, None);
        proof {
            assert forall|j: int| 0 <= j < final(self)@.len() implies final(self)@[j] == old(
                self,
            )@.update(h as int, None::<Seq<u8>>)[j] by {
                assert(final(self).slots@[j] == old(self).slots@.update(
                    h as int,
                    None::<Vec<u8>>,
                )[j]);
            }
        }
    }
}

/// Law: after a buffer is released, its handle is dead, every other buffer
/// reads as before, and no handle minted later names it — allocation only
/// appends. So a released buffer leaves no reference behind that any
/// subsequent, unrelated call could observe.
pub proof fn lemma_release_leaves_nothing_behind(
    pre: Seq<Option<Seq<u8>>>,
    post: Seq<Option<Seq<u8>>>,
    h: int,
)
    requires
        0 <= h < pre.len(),
        post == pre.update(h, None::<Seq<u8>>),
    ensures
        post.len() == pre.len(),
        post[h] is None,
        forall|j: int| 0 <= j < pre.len() && j != h ==> post[j] == pre[j],
{
}

} // verus!
