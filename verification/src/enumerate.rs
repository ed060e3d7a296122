//! Window enumeration filtering and title derivation: raw OS window
//! records are stripped of the overlay's own windows, of non-application
//! layers and of the system's Control Center surface, and each survivor
//! becomes a window entry with a display title (falling back to the
//! owning application's name when no real title is available).

use vstd::prelude::*;

use crate::model::{
    RawWindowRecord, RawWindowRecordView, WindowEntry, WindowEntryView, entry_views, record_views,
    spec_entry_ids, spec_unique_seq,
};
use crate::text::{spec_blank, spec_u64_dec, str_is_blank, u64_to_dec_string, lemma_u64_dec_injective};

verus! {

/// The owning application's display name: the reported owner name when
/// present and not blank, otherwise the generic placeholder.
pub open spec fn spec_app_name(owner_name: Option<Seq<char>>) -> Seq<char> {
    match owner_name {
        Option::Some(n) => if !spec_blank(n) {
            n
        } else {
            "App"@
        },
        Option::None => "App"@,
    }
}

/// The record's native title counts only when present and not blank;
/// otherwise the entry falls back to the application name.
pub open spec fn spec_uses_fallback(r: RawWindowRecordView) -> bool {
    match r.title {
        Option::Some(t) => spec_blank(t),
        Option::None => true,
    }
}

/// The derived display title of a record.
pub open spec fn spec_title(r: RawWindowRecordView) -> Seq<char> {
    if spec_uses_fallback(r) {
        spec_app_name(r.owner_name)
    } else {
        r.title->0
    }
}

/// A record survives filtering when it is not owned by the current
/// process, sits on the normal application layer, and is not the
/// system's Control Center surface.
pub open spec fn spec_is_kept(r: RawWindowRecordView, current_pid: i64) -> bool {
    &&& r.owner_pid != Option::<i64>::Some(current_pid)
    &&& r.layer == 0
    &&& spec_app_name(r.owner_name) != "Control Center"@
}

/// The entry derived from one (kept) record.
pub open spec fn spec_entry_of(r: RawWindowRecordView) -> WindowEntryView {
    WindowEntryView {
        id: spec_u64_dec(r.window_number as nat),
        title: spec_title(r),
        app_name: spec_app_name(r.owner_name),
        is_title_fallback: spec_uses_fallback(r),
        owner_pid: r.owner_pid,
    }
}

/// Filtering and derivation of one record, as `filter_map` expects it.
pub open spec fn spec_entry_opt(current_pid: i64) -> spec_fn(RawWindowRecordView) -> Option<
    WindowEntryView,
> {
    |r: RawWindowRecordView|
        if spec_is_kept(r, current_pid) {
            Option::Some(spec_entry_of(r))
        } else {
            Option::None
        }
}

/// The entries derived from a sequence of raw records, in discovery
/// order.
pub open spec fn spec_entries(records: Seq<RawWindowRecordView>, current_pid: i64) -> Seq<
    WindowEntryView,
> {
    records.filter_map(spec_entry_opt(current_pid))
}

fn derive_app_name(owner_name: &Option<String>) -> (r: String)
    ensures
        r@ == spec_app_name(crate::model::view_opt_string(*owner_name)),
{
    match owner_name {
        Option::Some(n) => {
            if str_is_blank(n.as_str()) {
                "App".to_owned()
            } else {
                n.clone()
            }
        },
        Option::None => "App".to_owned(),
    }
}

/// Applies the three filters in order and derives the display title of
/// each surviving record.
pub fn build_entries(records: &Vec<RawWindowRecord>, current_pid: i64) -> (entries: Vec<
    WindowEntry,
>)
    ensures
        entry_views(entries@) == spec_entries(record_views(records@), current_pid),
{
    broadcast use vstd::seq_lib::group_seq_properties;

    let ghost rs = record_views(records@);
    let ghost f = spec_entry_opt(current_pid);
    let control_center: String = "Control Center".to_owned();
    let mut entries: Vec<WindowEntry> = Vec::new();
    let mut i: usize = 0;
    while i < records.len()
        invariant
            rs == record_views(records@),
            f == spec_entry_opt(current_pid),
            rs.len() == records@.len(),
            i <= records@.len(),
            control_center@ == "Control Center"@,
            entry_views(entries@) == rs.take(i as int).filter_map(f),
        decreases records@.len() - i,
    {
        let r = &records[i];
        proof {
            assert(rs[i as int] == records@[i as int]@);
            rs.lemma_filter_map_take_succ(f, i as int);
        }
        let is_self = match r.owner_pid {
            Option::Some(p) => p == current_pid,
            Option::None => false,
        };
        let app_name = derive_app_name(&r.owner_name);
        if !is_self && r.layer == 0 && !(app_name == control_center) {
            let mut title: String;
            let mut fallback: bool;
            match &r.title {
                Option::Some(t) => {
                    if str_is_blank(t.as_str()) {
                        title = app_name.clone();
                        fallback = true;
                    } else {
                        title = t.clone();
                        fallback = false;
                    }
                },
                Option::None => {
                    title = app_name.clone();
                    fallback = true;
                },
            }
            let entry = WindowEntry {
                id: u64_to_dec_string(r.window_number),
                title,
                app_name,
                is_title_fallback: fallback,
                owner_pid: r.owner_pid,
            };
            proof {
                assert(spec_is_kept(rs[i as int], current_pid));
                assert(entry@ == spec_entry_of(rs[i as int]));
            }
            entries.push(entry);
            proof {
                assert(entry_views(entries@) =~= rs.take(i + 1).filter_map(f));
            }
        } else {
            proof {
                assert(!spec_is_kept(rs[i as int], current_pid));
                assert(entry_views(entries@) =~= rs.take(i + 1).filter_map(f));
            }
        }
        i = i + 1;
    }
    proof {
        assert(rs.take(rs.len() as int) =~= rs);
    }
    entries
}

/// Every entry of the filtered sequence is the image of some record.
proof fn lemma_entries_come_from_records(
    records: Seq<RawWindowRecordView>,
    current_pid: i64,
    k: int,
)
    requires
        0 <= k < spec_entries(records, current_pid).len(),
    ensures
        exists|t: int|
            0 <= t < records.len() && spec_is_kept(#[trigger] records[t], current_pid)
                && spec_entry_of(records[t]) == spec_entries(records, current_pid)[k],
    decreases records.len(),
{
    let f = spec_entry_opt(current_pid);
    let es = spec_entries(records, current_pid);
    if records.len() > 0 {
        let rest = records.drop_last();
        let last = records.last();
        let prefix = spec_entries(rest, current_pid);
        if f(last) is Some {
            assert(es == prefix + seq![spec_entry_of(last)]);
            if k < prefix.len() {
                lemma_entries_come_from_records(rest, current_pid, k);
                let t = choose|t: int|
                    0 <= t < rest.len() && spec_is_kept(#[trigger] rest[t], current_pid)
                        && spec_entry_of(rest[t]) == prefix[k];
                assert(records[t] == rest[t]);
                assert(es[k] == prefix[k]);
            } else {
                assert(es[k] == spec_entry_of(last));
                assert(records[records.len() - 1] == last);
            }
        } else {
            assert(es == prefix);
            lemma_entries_come_from_records(rest, current_pid, k);
            let t = choose|t: int|
                0 <= t < rest.len() && spec_is_kept(#[trigger] rest[t], current_pid)
                    && spec_entry_of(rest[t]) == prefix[k];
            assert(records[t] == rest[t]);
        }
    }
}

/// Ids are unique within one enumeration: records with pairwise distinct
/// window numbers yield entries with pairwise distinct ids. (The OS
/// registry reports each window number once; two raw records sharing a
/// window number would defeat this.)
pub proof fn law_unique_ids(records: Seq<RawWindowRecordView>, current_pid: i64)
    requires
        forall|i: int, j: int|
            0 <= i < j < records.len() ==> #[trigger] records[i].window_number
                != #[trigger] records[j].window_number,
    ensures
        spec_unique_seq(spec_entry_ids(spec_entries(records, current_pid))),
    decreases records.len(),
{
    broadcast use vstd::seq_lib::group_seq_properties;

    let f = spec_entry_opt(current_pid);
    let es = spec_entries(records, current_pid);
    let ids = spec_entry_ids(es);
    if records.len() > 0 {
        let rest = records.drop_last();
        let last = records.last();
        let prefix = spec_entries(rest, current_pid);
        law_unique_ids(rest, current_pid);
        if f(last) is Some {
            assert(es == prefix + seq![spec_entry_of(last)]);
            assert forall|k: int| 0 <= k < prefix.len() implies prefix[k].id
                != spec_entry_of(last).id by {
                lemma_entries_come_from_records(rest, current_pid, k);
                let t = choose|t: int|
                    0 <= t < rest.len() && spec_is_kept(#[trigger] rest[t], current_pid)
                        && spec_entry_of(rest[t]) == prefix[k];
                assert(records[t] == rest[t]);
                assert(records[t].window_number != last.window_number);
                if prefix[k].id == spec_entry_of(last).id {
                    lemma_u64_dec_injective(
                        records[t].window_number as nat,
                        last.window_number as nat,
                    );
                }
            }
            assert forall|i: int, j: int| 0 <= i < j < ids.len() implies ids[i] != ids[j] by {
                assert(ids[i] == es[i].id);
                assert(ids[j] == es[j].id);
                if j < prefix.len() {
                    assert(spec_entry_ids(prefix)[i] == prefix[i].id);
                    assert(spec_entry_ids(prefix)[j] == prefix[j].id);
                } else {
                    assert(es[j] == spec_entry_of(last));
                }
            }
        } else {
            assert(es == prefix);
            assert(spec_unique_seq(spec_entry_ids(prefix)));
            assert forall|i: int, j: int| 0 <= i < j < ids.len() implies ids[i] != ids[j] by {
                assert(spec_entry_ids(prefix)[i] == prefix[i].id);
                assert(spec_entry_ids(prefix)[j] == prefix[j].id);
            }
        }
    }
}

/// A fallback title always equals the application name; and unless a
/// window's real title coincides with its owning application's name
/// (the one case the derivation cannot tell apart), the fallback flag
/// holds exactly when the title equals the application name.
pub proof fn law_fallback_iff_title_is_app_name(r: RawWindowRecordView)
    requires
        !spec_uses_fallback(r) ==> r.title->0 != spec_app_name(r.owner_name),
    ensures
        spec_entry_of(r).is_title_fallback <==> spec_entry_of(r).title == spec_entry_of(r).app_name,
{
}

/// The unconditional direction: whenever the fallback flag is set, the
/// title is the application name.
pub proof fn law_fallback_title_is_app_name(r: RawWindowRecordView)
    ensures
        spec_entry_of(r).is_title_fallback ==> spec_entry_of(r).title == spec_entry_of(r).app_name,
{
}

} // verus!
