//! The snapshot cache: the last-known mapping from window id to resolved
//! identity. It is replaced wholesale on every enumeration — never
//! merged — so activation resolves ids against exactly the most recent
//! successful pass.

use vstd::prelude::*;

use crate::model::{WindowEntry, WindowEntryView, entry_views};

verus! {

/// The mapping that inserting a sequence of entries in order produces:
/// a later entry with the same id wins.
pub open spec fn spec_snapshot_map(s: Seq<WindowEntryView>) -> Map<Seq<char>, WindowEntryView>
    decreases s.len(),
{
    if s.len() == 0 {
        Map::empty()
    } else {
        spec_snapshot_map(s.drop_last()).insert(s.last().id, s.last())
    }
}

/// The snapshot map holds exactly the ids of the entries it was built
/// from.
pub proof fn lemma_snapshot_map_domain(s: Seq<WindowEntryView>, id: Seq<char>)
    ensures
        spec_snapshot_map(s).contains_key(id) <==> exists|k: int|
            0 <= k < s.len() && #[trigger] s[k].id == id,
    decreases s.len(),
{
    if s.len() > 0 {
        lemma_snapshot_map_domain(s.drop_last(), id);
        if s.last().id == id {
            assert(s[s.len() - 1].id == id);
        } else if spec_snapshot_map(s).contains_key(id) {
            let k = choose|k: int| 0 <= k < s.drop_last().len() && #[trigger] s.drop_last()[k].id == id;
            assert(s[k].id == id);
        } else {
            if exists|k: int| 0 <= k < s.len() && #[trigger] s[k].id == id {
                let k = choose|k: int| 0 <= k < s.len() && #[trigger] s[k].id == id;
                assert(k < s.len() - 1);
                assert(s.drop_last()[k].id == id);
            }
        }
    }
}

/// If no entry at or after position `i` carries the id, the map built
/// from the whole sequence agrees at that id with the map built from the
/// first `i` entries.
proof fn lemma_snapshot_map_unmatched_suffix(s: Seq<WindowEntryView>, i: int, id: Seq<char>)
    requires
        0 <= i <= s.len(),
        forall|k: int| i <= k < s.len() ==> #[trigger] s[k].id != id,
    ensures
        spec_snapshot_map(s).contains_key(id) <==> spec_snapshot_map(s.take(i)).contains_key(id),
        spec_snapshot_map(s).contains_key(id) ==> spec_snapshot_map(s)[id] == spec_snapshot_map(
            s.take(i),
        )[id],
    decreases s.len() - i,
{
    if i < s.len() {
        assert(s.take(s.len() as int) =~= s);
        assert(s.take(i + 1).drop_last() =~= s.take(i));
        assert(s.take(i + 1).last() == s[i]);
        lemma_snapshot_map_unmatched_suffix(s, i + 1, id);
        assert(spec_snapshot_map(s.take(i + 1)) == spec_snapshot_map(s.take(i)).insert(
            s[i].id,
            s[i],
        ));
    } else {
        assert(s.take(i) =~= s);
    }
}

/// The provider-internal cache mapping window ids to resolved entries.
/// Its abstract value is the id-to-entry map of the snapshot it was last
/// replaced with.
pub struct SnapshotCache {
    entries: Vec<WindowEntry>,
}

impl View for SnapshotCache {
    type V = Map<Seq<char>, WindowEntryView>;

    closed spec fn view(&self) -> Map<Seq<char>, WindowEntryView> {
        spec_snapshot_map(entry_views(self.entries@))
    }
}

impl SnapshotCache {
    /// Created empty at startup.
    pub fn new() -> (r: Self)
        ensures
            r@ == Map::<Seq<char>, WindowEntryView>::empty(),
    {
        SnapshotCache { entries: Vec::new() }
    }

    /// Wholesale replacement: the new snapshot's contents are exactly the
    /// given entries; nothing of the previous snapshot survives.
    pub fn replace(&mut self, entries: Vec<WindowEntry>)
        ensures
            final(self)@ == spec_snapshot_map(entry_views(entries@)),
    {
        self.entries = entries;
    }

    /// Looks an id up in the snapshot.
    pub fn find(&self, id: &str) -> (r: Option<WindowEntry>)
        ensures
            match r {
                Option::Some(e) => self@.contains_key(id@) && e@ == self@[id@],
                Option::None => !self@.contains_key(id@),
            },
    {
        let ghost s = entry_views(self.entries@);
        let key: String = id.to_owned();
        let mut i: usize = self.entries.len();
        proof {
            assert(s.take(i as int) =~= s);
        }
        while i > 0
            invariant
                s == entry_views(self.entries@),
                key@ == id@,
                i <= self.entries@.len(),
                s.len() == self.entries@.len(),
                forall|k: int| i <= k < s.len() ==> #[trigger] s[k].id != id@,
            decreases i,
        {
            i = i - 1;
            if self.entries[i].id == key {
                let found = self.entries[i].clone();
                proof {
                    lemma_snapshot_map_unmatched_suffix(s, i + 1, id@);
                    assert(s.take(i + 1).drop_last() =~= s.take(i as int));
                    assert(s.take(i + 1).last() == s[i as int]);
                    assert(spec_snapshot_map(s.take(i + 1)) == spec_snapshot_map(
                        s.take(i as int),
                    ).insert(s[i as int].id, s[i as int]));
                    assert(self@.contains_key(id@));
                    assert(self@[id@] == s[i as int]);
                }
                return Option::Some(found);
            }
            proof {
                assert(s[i as int].id != id@);
            }
        }
        proof {
            lemma_snapshot_map_unmatched_suffix(s, 0, id@);
            assert(s.take(0) =~= Seq::<WindowEntryView>::empty());
        }
        Option::None
    }

    /// An id absent from the entries of the latest replacement resolves
    /// to nothing, whatever any earlier snapshot held: replacement
    /// forgets the past entirely.
    pub proof fn law_replacement_forgets_previous(entries: Seq<WindowEntryView>, id: Seq<char>)
        requires
            forall|k: int| 0 <= k < entries.len() ==> #[trigger] entries[k].id != id,
        ensures
            !spec_snapshot_map(entries).contains_key(id),
    {
        lemma_snapshot_map_domain(entries, id);
    }
}

} // verus!
