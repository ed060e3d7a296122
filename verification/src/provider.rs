//! The provider capability contract and its implementations: a
//! deterministic mock for tests and non-native platforms, and the native
//! provider core — snapshot bookkeeping plus the composition of the
//! externally visible window list from filtered entries and captured
//! thumbnails. The native enumeration and capture calls themselves live
//! outside; everything they feed in or take out passes through here.

use vstd::prelude::*;

use crate::cache::{SnapshotCache, spec_snapshot_map};
use crate::enumerate::{build_entries, spec_entries};
use crate::model::{
    ActivationError, RawWindowRecord, WindowEntry, WindowEntryView, WindowInfo, WindowInfoView,
    entry_views, info_views, record_views, spec_info_of, spec_info_ids, spec_unique_seq,
    view_opt_string,
};

verus! {

/// Every implementation of the capability returns lists whose entries
/// satisfy these two interface guarantees: no id appears twice, and a
/// fallback title always equals the application name.
pub open spec fn spec_list_wf(infos: Seq<WindowInfoView>) -> bool {
    &&& spec_unique_seq(spec_info_ids(infos))
    &&& forall|k: int|
        0 <= k < infos.len() && (#[trigger] infos[k]).is_title_fallback ==> infos[k].title
            == infos[k].app_name
}

/// The window-provider capability: list the current on-screen windows,
/// bring one of them to the foreground, and drop any cached state.
pub trait WindowProvider: Sized {
    /// Returns the current on-screen windows in discovery order. A
    /// failed thumbnail capture yields an entry without a thumbnail,
    /// never an error for the whole call.
    fn list(&mut self, capture_thumbnails: bool) -> (r: Vec<WindowInfo>)
        ensures
            spec_list_wf(info_views(r@)),
    ;

    /// Brings the window identified by `id` to the foreground.
    fn activate(&mut self, id: &str) -> (r: Result<(), ActivationError>);

    /// Invalidates provider-internal cached state so the next `list`
    /// performs a full fresh query.
    fn clear_cache(&mut self);
}

/// The deterministic provider used on platforms without a native window
/// registry and in tests.
pub struct MockWindowProvider {
}

/// The fixed list the mock reports.
pub open spec fn spec_mock_windows() -> Seq<WindowInfoView> {
    seq![
        WindowInfoView {
            id: "1"@,
            title: "Mock Window — code editor"@,
            app_name: "VS Code"@,
            is_title_fallback: false,
            thumbnail: Option::None,
        },
        WindowInfoView {
            id: "2"@,
            title: "Mock Window — product specs"@,
            app_name: "Notion"@,
            is_title_fallback: false,
            thumbnail: Option::None,
        },
        WindowInfoView {
            id: "3"@,
            title: "Mock Window — design board"@,
            app_name: "Figma"@,
            is_title_fallback: false,
            thumbnail: Option::None,
        },
        WindowInfoView {
            id: "4"@,
            title: "Mock Window — browser"@,
            app_name: "Arc"@,
            is_title_fallback: false,
            thumbnail: Option::None,
        },
    ]
}

impl MockWindowProvider {
    /// The mock's window list, exactly as specified.
    pub fn mock_windows() -> (r: Vec<WindowInfo>)
        ensures
            info_views(r@) == spec_mock_windows(),
            spec_list_wf(info_views(r@)),
    {
        let r: Vec<WindowInfo> = vec![
            WindowInfo {
                id: "1".to_owned(),
                title: "Mock Window — code editor".to_owned(),
                app_name: "VS Code".to_owned(),
                is_title_fallback: false,
                thumbnail: Option::None,
            },
            WindowInfo {
                id: "2".to_owned(),
                title: "Mock Window — product specs".to_owned(),
                app_name: "Notion".to_owned(),
                is_title_fallback: false,
                thumbnail: Option::None,
            },
            WindowInfo {
                id: "3".to_owned(),
                title: "Mock Window — design board".to_owned(),
                app_name: "Figma".to_owned(),
                is_title_fallback: false,
                thumbnail: Option::None,
            },
            WindowInfo {
                id: "4".to_owned(),
                title: "Mock Window — browser".to_owned(),
                app_name: "Arc".to_owned(),
                is_title_fallback: false,
                thumbnail: Option::None,
            },
        ];
        proof {
            reveal_strlit("1");
            reveal_strlit("2");
            reveal_strlit("3");
            reveal_strlit("4");
            assert(info_views(r@) =~= spec_mock_windows());
            let ids = spec_info_ids(spec_mock_windows());
            assert(ids[0] == "1"@ && ids[1] == "2"@ && ids[2] == "3"@ && ids[3] == "4"@);
            assert("1"@[0] == '1' && "2"@[0] == '2' && "3"@[0] == '3' && "4"@[0] == '4');
            assert(spec_unique_seq(ids));
        }
        r
    }
}

impl Default for MockWindowProvider {
    fn default() -> (r: Self)
        ensures
            r == (MockWindowProvider {  }),
    {
        MockWindowProvider {  }
    }
}

impl WindowProvider for MockWindowProvider {
    fn list(&mut self, capture_thumbnails: bool) -> (r: Vec<WindowInfo>)
        ensures
            info_views(r@) == spec_mock_windows(),
    {
        MockWindowProvider::mock_windows()
    }

    fn activate(&mut self, id: &str) -> (r: Result<(), ActivationError>)
        ensures
            r is Ok,
    {
        Result::Ok(())
    }

    fn clear_cache(&mut self) {
    }
}

/// The native provider core: the snapshot cache that resolves window
/// ids for activation, replaced wholesale on every enumeration. The
/// native registry query feeds `ingest_records`; activation resolves
/// against `find_entry`.
pub struct MacWindowProvider {
    snapshot: SnapshotCache,
}

impl View for MacWindowProvider {
    type V = Map<Seq<char>, WindowEntryView>;

    closed spec fn view(&self) -> Map<Seq<char>, WindowEntryView> {
        self.snapshot@
    }
}

impl MacWindowProvider {
    /// Starts with an empty snapshot.
    pub fn new() -> (r: Self)
        ensures
            r@ == Map::<Seq<char>, WindowEntryView>::empty(),
    {
        MacWindowProvider { snapshot: SnapshotCache::new() }
    }

    /// Keeps the latest enumeration's entries to resolve activation
    /// requests; the previous snapshot is discarded entirely.
    pub fn refresh_snapshot(&mut self, entries: Vec<WindowEntry>)
        ensures
            final(self)@ == spec_snapshot_map(entry_views(entries@)),
    {
        self.snapshot.replace(entries);
    }

    /// Resolves a window id against the current snapshot.
    pub fn find_entry(&self, id: &str) -> (r: Option<WindowEntry>)
        ensures
            match r {
                Option::Some(e) => self@.contains_key(id@) && e@ == self@[id@],
                Option::None => !self@.contains_key(id@),
            },
    {
        self.snapshot.find(id)
    }

    /// Nothing is cached besides the snapshot, which every enumeration
    /// replaces anyway; kept for interface compatibility.
    pub fn clear_title_cache(&self)
    {
    }

    /// See `clear_title_cache`: the next `list` performs a full fresh
    /// query in any case.
    pub fn clear_cache(&self)
    {
        self.clear_title_cache()
    }

    /// Filters one enumeration pass's raw records, derives entries with
    /// display titles, and replaces the snapshot with them.
    pub fn ingest_records(&mut self, records: &Vec<RawWindowRecord>, current_pid: i64) -> (entries:
        Vec<WindowEntry>)
        ensures
            entry_views(entries@) == spec_entries(record_views(records@), current_pid),
            final(self)@ == spec_snapshot_map(spec_entries(record_views(records@), current_pid)),
    {
        let entries = build_entries(records, current_pid);
        let mut copy: Vec<WindowEntry> = Vec::new();
        let mut i: usize = 0;
        while i < entries.len()
            invariant
                i <= entries@.len(),
                copy@.len() == i as int,
                forall|k: int| 0 <= k < i ==> copy@[k] == entries@[k],
            decreases entries@.len() - i,
        {
            copy.push(entries[i].clone());
            i = i + 1;
        }
        proof {
            assert(copy@ =~= entries@);
        }
        self.refresh_snapshot(copy);
        entries
    }
}

/// Pairs each entry with its (optional) captured thumbnail to form the
/// externally visible list; results correlate by id, index by index.
pub fn compose_infos(entries: &Vec<WindowEntry>, thumbnails: &Vec<Option<String>>) -> (infos: Vec<
    WindowInfo,
>)
    requires
        entries@.len() == thumbnails@.len(),
    ensures
        infos@.len() == entries@.len(),
        forall|k: int|
            0 <= k < infos@.len() ==> (#[trigger] infos@[k])@ == spec_info_of(
                entries@[k]@,
                view_opt_string(thumbnails@[k]),
            ),
{
    let mut infos: Vec<WindowInfo> = Vec::new();
    let mut i: usize = 0;
    while i < entries.len()
        invariant
            entries@.len() == thumbnails@.len(),
            i <= entries@.len(),
            infos@.len() == i as int,
            forall|k: int|
                0 <= k < i ==> (#[trigger] infos@[k])@ == spec_info_of(
                    entries@[k]@,
                    view_opt_string(thumbnails@[k]),
                ),
        decreases entries@.len() - i,
    {
        let e = &entries[i];
        let thumbnail: Option<String> = match &thumbnails[i] {
            Option::Some(t) => Option::Some(t.clone()),
            Option::None => Option::None,
        };
        infos.push(
            WindowInfo {
                id: e.id.clone(),
                title: e.title.clone(),
                app_name: e.app_name.clone(),
                is_title_fallback: e.is_title_fallback,
                thumbnail,
            },
        );
        i = i + 1;
    }
    infos
}

/// The list without thumbnails, as activation-driven refreshes use it.
pub fn infos_without_thumbnails(entries: &Vec<WindowEntry>) -> (infos: Vec<WindowInfo>)
    ensures
        infos@.len() == entries@.len(),
        forall|k: int|
            0 <= k < infos@.len() ==> (#[trigger] infos@[k])@ == spec_info_of(
                entries@[k]@,
                Option::None,
            ),
{
    let mut thumbnails: Vec<Option<String>> = Vec::new();
    let mut i: usize = 0;
    while i < entries.len()
        invariant
            i <= entries@.len(),
            thumbnails@.len() == i as int,
            forall|k: int| 0 <= k < i ==> thumbnails@[k] is None,
        decreases entries@.len() - i,
    {
        thumbnails.push(Option::None);
        i = i + 1;
    }
    compose_infos(entries, &thumbnails)
}

/// Composition keeps ids: a list composed index by index from entries
/// with pairwise distinct ids — as `compose_infos` builds it — carries
/// pairwise distinct ids itself.
pub proof fn law_composed_ids_unique(entries: Seq<WindowEntryView>, infos: Seq<WindowInfoView>)
    requires
        spec_unique_seq(crate::model::spec_entry_ids(entries)),
        infos.len() == entries.len(),
        forall|k: int| 0 <= k < infos.len() ==> (#[trigger] infos[k]).id == entries[k].id,
    ensures
        spec_unique_seq(spec_info_ids(infos)),
{
    assert forall|i: int, j: int| 0 <= i < j < spec_info_ids(infos).len() implies spec_info_ids(
        infos,
    )[i] != spec_info_ids(infos)[j] by {
        assert(crate::model::spec_entry_ids(entries)[i] == entries[i].id);
        assert(crate::model::spec_entry_ids(entries)[j] == entries[j].id);
    }
}

/// The service the transport layer talks to: it forwards to whichever
/// provider was selected at startup.
pub struct WindowService<P> {
    pub provider: P,
}

impl<P: WindowProvider> WindowService<P> {
    /// Wraps the injected provider.
    pub fn new(provider: P) -> (r: Self)
        ensures
            r.provider == provider,
    {
        WindowService { provider }
    }

    /// Lists the current windows through the provider.
    pub fn list(&mut self, capture_thumbnails: bool) -> (r: Vec<WindowInfo>)
        ensures
            spec_list_wf(info_views(r@)),
    {
        self.provider.list(capture_thumbnails)
    }

    /// Activates the window identified by `id` through the provider.
    pub fn activate(&mut self, id: &str) -> (r: Result<(), ActivationError>) {
        self.provider.activate(id)
    }

    /// Drops provider-internal cached state.
    pub fn clear_cache(&mut self) {
        self.provider.clear_cache()
    }

    /// The transport-facing list operation: an explicit refresh clears
    /// the provider's cache before enumerating; absent flags default to
    /// no refresh and thumbnails on.
    pub fn list_windows(&mut self, refresh_cache: Option<bool>, capture_thumbnails: Option<bool>)
        -> (r: Vec<WindowInfo>)
        ensures
            spec_list_wf(info_views(r@)),
    {
        let refresh = match refresh_cache {
            Option::Some(b) => b,
            Option::None => false,
        };
        let capture = match capture_thumbnails {
            Option::Some(b) => b,
            Option::None => true,
        };
        if refresh {
            self.clear_cache();
        }
        self.list(capture)
    }
}

} // verus!
