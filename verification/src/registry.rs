//! The material registry: per-material preparation state.
//!
//! The registry owns one entry per material instance, keyed by the
//! material's asset id. Each entry is either `Unprepared` or `Prepared` with
//! its device-ready resource; a preparation attempt whose texture is still
//! pending leaves (or puts back) the entry `Unprepared`, to be retried on a
//! later cycle. The registry's invariant keeps every prepared resource
//! byte-consistent with the material it was built from, at the registry's
//! configured uniform-buffer alignment.

use vstd::prelude::*;

use crate::material::CustomMaterial;
use crate::prepare::GpuCustomMaterial;
use crate::prepare::PrepareError;
use crate::prepare::TextureResolution;
use crate::prepare::bind_group_spec;
use crate::prepare::prepare_asset;
use crate::prepare::prepared_consistent;
use crate::uniform::BLOCK_BODY_SIZE;

verus! {

/// The preparation state of one registered material.
#[derive(Clone, PartialEq, Eq, Debug)]
pub enum PreparationState {
    /// No device resource yet: never prepared, or awaiting a texture that
    /// has not resolved.
    Unprepared,
    /// The device-ready resource built from the entry's material.
    Prepared { resource: GpuCustomMaterial },
}

/// One registry entry: the material's asset id, its latest extracted
/// snapshot, and its preparation state.
#[derive(Clone, PartialEq, Eq, Debug)]
pub struct MaterialEntry {
    pub id: u64,
    pub material: CustomMaterial,
    pub state: PreparationState,
}

/// The position of the entry with the given id, or the sequence's length if
/// no entry has it.
pub open spec fn index_of(s: Seq<MaterialEntry>, id: u64) -> int
    decreases s.len(),
{
    if s.len() == 0 {
        0
    } else if s[0].id == id {
        0
    } else {
        1 + index_of(s.skip(1), id)
    }
}

/// Whether some entry has the given id.
pub open spec fn has_id(s: Seq<MaterialEntry>, id: u64) -> bool {
    index_of(s, id) < s.len()
}

/// [`index_of`] stays within bounds, lands on the id it was asked for, and
/// skips no entry with that id.
pub proof fn lemma_index_of_properties(s: Seq<MaterialEntry>, id: u64)
    ensures
        0 <= index_of(s, id) <= s.len(),
        index_of(s, id) < s.len() ==> s[index_of(s, id)].id == id,
        forall|j: int| 0 <= j < index_of(s, id) ==> s[j].id != id,
    decreases s.len(),
{
    if s.len() != 0 && s[0].id != id {
        lemma_index_of_properties(s.skip(1), id);
        assert(forall|j: int|
            1 <= j < index_of(s, id) ==> s[j] == s.skip(1)[j - 1] && s[j].id != id);
    }
}

/// An entry with the id at position `i`, and none before it, pins
/// [`index_of`] to `i`.
pub proof fn lemma_index_of_found(s: Seq<MaterialEntry>, id: u64, i: int)
    requires
        0 <= i < s.len(),
        s[i].id == id,
        forall|j: int| 0 <= j < i ==> s[j].id != id,
    ensures
        index_of(s, id) == i,
    decreases i,
{
    if i > 0 {
        assert(s.skip(1)[i - 1] == s[i]);
        assert(forall|j: int| 0 <= j < i - 1 ==> s.skip(1)[j] == s[j + 1] && s.skip(1)[j].id != id);
        lemma_index_of_found(s.skip(1), id, i - 1);
    }
}

/// No entry with the id anywhere pins [`index_of`] to the length.
pub proof fn lemma_index_of_absent(s: Seq<MaterialEntry>, id: u64)
    requires
        forall|j: int| 0 <= j < s.len() ==> s[j].id != id,
    ensures
        index_of(s, id) == s.len(),
    decreases s.len(),
{
    if s.len() != 0 {
        assert(forall|j: int|
            0 <= j < s.skip(1).len() ==> s.skip(1)[j] == s[j + 1] && s.skip(1)[j].id != id);
        lemma_index_of_absent(s.skip(1), id);
    }
}

/// A well-formed entry: if it is prepared, its resource is consistent with
/// its material at alignment `align`.
pub open spec fn entry_ok(e: MaterialEntry, align: int) -> bool {
    e.state matches PreparationState::Prepared { resource } ==> prepared_consistent(
        resource,
        e.material,
        align,
    )
}

/// The per-material registry driving the `Unprepared` → `Prepared` state
/// machine, configured with the device's minimum uniform-buffer alignment.
pub struct MaterialRegistry {
    entries: Vec<MaterialEntry>,
    alignment: usize,
}

impl MaterialRegistry {
    /// The registered entries, in insertion order.
    pub closed spec fn entries_view(&self) -> Seq<MaterialEntry> {
        self.entries@
    }

    /// The uniform-buffer alignment every resource is packed at.
    pub closed spec fn alignment_view(&self) -> int {
        self.alignment as int
    }

    /// The registry's invariant: a usable alignment, ids registered at most
    /// once, and every prepared resource consistent with its material.
    pub open spec fn wf(&self) -> bool {
        &&& 1 <= self.alignment_view() <= usize::MAX - BLOCK_BODY_SIZE
        &&& forall|i: int, j: int|
            0 <= i < j < self.entries_view().len() ==> self.entries_view()[i].id
                != self.entries_view()[j].id
        &&& forall|i: int|
            0 <= i < self.entries_view().len() ==> entry_ok(
                #[trigger] self.entries_view()[i],
                self.alignment_view(),
            )
    }

    /// An empty registry for a device whose minimum uniform-buffer alignment
    /// is `alignment`.
    pub fn new(alignment: usize) -> (r: Self)
        requires
            1 <= alignment,
            alignment <= usize::MAX - BLOCK_BODY_SIZE,
        ensures
            r.wf(),
            r.entries_view().len() == 0,
            r.alignment_view() == alignment,
    {
        MaterialRegistry { entries: Vec::new(), alignment }
    }

    /// The configured alignment.
    pub fn alignment(&self) -> (r: usize)
        ensures
            r == self.alignment_view(),
    {
        self.alignment
    }

    /// How many materials are registered.
    pub fn len(&self) -> (r: usize)
        ensures
            r == self.entries_view().len(),
    {
        self.entries.len()
    }

    /// The position of the entry with the given id, if one is registered.
    fn find(&self, id: u64) -> (r: Option<usize>)
        ensures
            match r {
                Some(i) => i < self.entries_view().len() && i == index_of(
                    self.entries_view(),
                    id,
                ),
                None => !has_id(self.entries_view(), id),
            },
    {
        let ghost s = self.entries_view();
        let mut i: usize = 0;
        while i < self.entries.len()
            invariant
                0 <= i <= s.len(),
                s == self.entries_view(),
                forall|j: int| 0 <= j < i ==> s[j].id != id,
            decreases s.len() - i,
        {
            if self.entries[i].id == id {
                proof {
                    lemma_index_of_found(s, id, i as int);
                }
                return Some(i);
            }
            i = i + 1;
        }
        proof {
            lemma_index_of_absent(s, id);
        }
        None
    }

    /// Whether a material with the given id is registered.
    pub fn contains(&self, id: u64) -> (r: bool)
        ensures
            r == has_id(self.entries_view(), id),
    {
        self.find(id).is_some()
    }

    /// Whether the material with the given id is registered and prepared.
    pub fn is_prepared(&self, id: u64) -> (r: bool)
        ensures
            r == (has_id(self.entries_view(), id) && self.entries_view()[index_of(
                self.entries_view(),
                id,
            )].state is Prepared),
    {
        match self.find(id) {
            Some(i) => match &self.entries[i].state {
                PreparationState::Prepared { resource: _ } => true,
                PreparationState::Unprepared => false,
            },
            None => false,
        }
    }

    /// Registers a material under an id, or replaces the material already
    /// registered under it. Either way the entry starts (or starts over)
    /// `Unprepared`: a replaced material's old resource is released, so a
    /// changed texture reference is re-resolved before the material is used
    /// again.
    pub fn insert(&mut self, id: u64, material: CustomMaterial)
        requires
            old(self).wf(),
        ensures
            final(self).wf(),
            final(self).alignment_view() == old(self).alignment_view(),
            ({
                let s = old(self).entries_view();
                let e = (MaterialEntry { id, material, state: PreparationState::Unprepared });
                if has_id(s, id) {
                    final(self).entries_view() == s.update(index_of(s, id), e)
                } else {
                    final(self).entries_view() == s.push(e)
                }
            }),
    {
        proof {
            lemma_index_of_properties(old(self).entries_view(), id);
        }
        let entry = MaterialEntry { id, material, state: PreparationState::Unprepared };
        match self.find(id) {
            Some(i) => {
                self.entries.set(i, entry);
            },
            None => {
                self.entries.push(entry);
            },
        }
    }

    /// Unregisters the material with the given id, releasing its entry and
    /// resource; without one, the registry is unchanged.
    pub fn remove(&mut self, id: u64)
        requires
            old(self).wf(),
        ensures
            final(self).wf(),
            final(self).alignment_view() == old(self).alignment_view(),
            ({
                let s = old(self).entries_view();
                if has_id(s, id) {
                    final(self).entries_view() == s.remove(index_of(s, id))
                } else {
                    final(self).entries_view() == s
                }
            }),
    {
        match self.find(id) {
            Some(i) => {
                self.entries.remove(i);
                proof {
                    let s = old(self).entries_view();
                    let t = final(self).entries_view();
                    assert(forall|k: int|
                        0 <= k < t.len() ==> #[trigger] t[k] == if k < i as int {
                            s[k]
                        } else {
                            s[k + 1]
                        });
                }
            },
            None => {},
        }
    }

    /// One preparation attempt for the registered material with the given
    /// id, with the host resolver's answer for its texture this cycle.
    ///
    /// A resolved texture moves the entry to `Prepared`, with a resource
    /// consistent with the entry's material and a bind set over the resolved
    /// view and sampler. A pending texture puts the entry (back) to
    /// `Unprepared` and returns the retry signal with the entry's material;
    /// the caller re-attempts on a later cycle. No other entry changes.
    pub fn prepare(&mut self, id: u64, resolution: TextureResolution) -> (r: Result<
        (),
        PrepareError,
    >)
        requires
            old(self).wf(),
            has_id(old(self).entries_view(), id),
        ensures
            final(self).wf(),
            final(self).alignment_view() == old(self).alignment_view(),
            final(self).entries_view().len() == old(self).entries_view().len(),
            r is Ok <==> resolution is Resolved,
            ({
                let s = old(self).entries_view();
                let i = index_of(s, id);
                let t = final(self).entries_view();
                &&& forall|j: int| 0 <= j < s.len() && j != i ==> t[j] == s[j]
                &&& t[i].id == id
                &&& t[i].material == s[i].material
                &&& match resolution {
                    TextureResolution::Resolved { view, sampler } => {
                        &&& r == Ok::<(), PrepareError>(())
                        &&& t[i].state matches PreparationState::Prepared { resource }
                        &&& (t[i].state matches PreparationState::Prepared { resource }
                            ==> prepared_consistent(
                            resource,
                            s[i].material,
                            old(self).alignment_view(),
                        ) && resource.bind_group@ == bind_group_spec(view, sampler))
                    },
                    TextureResolution::Pending => {
                        &&& r == Err::<(), PrepareError>(
                            PrepareError::RetryNextUpdate { material: s[i].material },
                        )
                        &&& t[i].state is Unprepared
                    },
                }
            }),
    {
        proof {
            lemma_index_of_properties(old(self).entries_view(), id);
        }
        let i = match self.find(id) {
            Some(i) => i,
            None => vstd::pervasive::unreached(),
        };
        let material = self.entries[i].material;
        match prepare_asset(material, resolution, self.alignment) {
            Ok(resource) => {
                self.entries.set(
                    i,
                    MaterialEntry { id, material, state: PreparationState::Prepared { resource } },
                );
                Ok(())
            },
            Err(e) => {
                self.entries.set(
                    i,
                    MaterialEntry { id, material, state: PreparationState::Unprepared },
                );
                Err(e)
            },
        }
    }
}

} // verus!
