//! The data model: raw window records as the OS registry reports them,
//! the internal window entries the engine derives from them, the
//! externally visible `WindowInfo`, and the activation error taxonomy.

use vstd::prelude::*;

verus! {

/// One on-screen window's raw attributes as reported by the OS window
/// registry: numeric id, owning-application name, window title (absent
/// without the screen-content permission), owning process id, and the
/// stacking layer.
pub struct RawWindowRecord {
    pub window_number: u64,
    pub owner_name: Option<String>,
    pub title: Option<String>,
    pub owner_pid: Option<i64>,
    pub layer: i64,
}

/// Mathematical image of a raw record.
pub struct RawWindowRecordView {
    pub window_number: u64,
    pub owner_name: Option<Seq<char>>,
    pub title: Option<Seq<char>>,
    pub owner_pid: Option<i64>,
    pub layer: i64,
}

/// The view of an optional string.
pub open spec fn view_opt_string(o: Option<String>) -> Option<Seq<char>> {
    match o {
        Option::Some(s) => Option::Some(s@),
        Option::None => Option::None,
    }
}

impl View for RawWindowRecord {
    type V = RawWindowRecordView;

    open spec fn view(&self) -> RawWindowRecordView {
        RawWindowRecordView {
            window_number: self.window_number,
            owner_name: view_opt_string(self.owner_name),
            title: view_opt_string(self.title),
            owner_pid: self.owner_pid,
            layer: self.layer,
        }
    }
}

/// A resolved window identity kept in the snapshot cache: everything a
/// later activation needs, including the owning process id.
pub struct WindowEntry {
    pub id: String,
    pub title: String,
    pub app_name: String,
    pub is_title_fallback: bool,
    pub owner_pid: Option<i64>,
}

/// Mathematical image of a window entry.
pub struct WindowEntryView {
    pub id: Seq<char>,
    pub title: Seq<char>,
    pub app_name: Seq<char>,
    pub is_title_fallback: bool,
    pub owner_pid: Option<i64>,
}

impl View for WindowEntry {
    type V = WindowEntryView;

    open spec fn view(&self) -> WindowEntryView {
        WindowEntryView {
            id: self.id@,
            title: self.title@,
            app_name: self.app_name@,
            is_title_fallback: self.is_title_fallback,
            owner_pid: self.owner_pid,
        }
    }
}

impl Clone for WindowEntry {
    fn clone(&self) -> (r: Self)
        ensures
            r == *self,
    {
        WindowEntry {
            id: self.id.clone(),
            title: self.title.clone(),
            app_name: self.app_name.clone(),
            is_title_fallback: self.is_title_fallback,
            owner_pid: self.owner_pid,
        }
    }
}

/// The externally visible description of one window. Constructed fresh
/// per enumeration and never mutated afterwards.
pub struct WindowInfo {
    pub id: String,
    pub title: String,
    pub app_name: String,
    pub is_title_fallback: bool,
    pub thumbnail: Option<String>,
}

/// Mathematical image of a `WindowInfo`.
pub struct WindowInfoView {
    pub id: Seq<char>,
    pub title: Seq<char>,
    pub app_name: Seq<char>,
    pub is_title_fallback: bool,
    pub thumbnail: Option<Seq<char>>,
}

impl View for WindowInfo {
    type V = WindowInfoView;

    open spec fn view(&self) -> WindowInfoView {
        WindowInfoView {
            id: self.id@,
            title: self.title@,
            app_name: self.app_name@,
            is_title_fallback: self.is_title_fallback,
            thumbnail: view_opt_string(self.thumbnail),
        }
    }
}

impl Clone for WindowInfo {
    fn clone(&self) -> (r: Self)
        ensures
            r == *self,
    {
        WindowInfo {
            id: self.id.clone(),
            title: self.title.clone(),
            app_name: self.app_name.clone(),
            is_title_fallback: self.is_title_fallback,
            thumbnail: match &self.thumbnail {
                Option::Some(t) => Option::Some(t.clone()),
                Option::None => Option::None,
            },
        }
    }
}

/// The composition of an external `WindowInfo` from a cached entry and
/// an optional encoded thumbnail.
pub open spec fn spec_info_of(e: WindowEntryView, thumbnail: Option<Seq<char>>) -> WindowInfoView {
    WindowInfoView {
        id: e.id,
        title: e.title,
        app_name: e.app_name,
        is_title_fallback: e.is_title_fallback,
        thumbnail: thumbnail,
    }
}

/// The hard errors `activate` can surface: the id is unknown even after
/// one cache refresh, or the OS-level activation itself failed.
pub enum ActivationError {
    NotFound(String),
    ActivationFailure(String),
}

/// Mathematical image of an activation error.
pub enum ActivationErrorView {
    NotFound(Seq<char>),
    ActivationFailure(Seq<char>),
}

impl View for ActivationError {
    type V = ActivationErrorView;

    open spec fn view(&self) -> ActivationErrorView {
        match self {
            ActivationError::NotFound(s) => ActivationErrorView::NotFound(s@),
            ActivationError::ActivationFailure(s) => ActivationErrorView::ActivationFailure(s@),
        }
    }
}

/// The views of a sequence of entries.
pub open spec fn entry_views(s: Seq<WindowEntry>) -> Seq<WindowEntryView> {
    s.map_values(|e: WindowEntry| e@)
}

/// The views of a sequence of raw records.
pub open spec fn record_views(s: Seq<RawWindowRecord>) -> Seq<RawWindowRecordView> {
    s.map_values(|r: RawWindowRecord| r@)
}

/// The views of a sequence of window infos.
pub open spec fn info_views(s: Seq<WindowInfo>) -> Seq<WindowInfoView> {
    s.map_values(|w: WindowInfo| w@)
}

/// The ids carried by a sequence of window infos.
pub open spec fn spec_info_ids(s: Seq<WindowInfoView>) -> Seq<Seq<char>> {
    s.map_values(|w: WindowInfoView| w.id)
}

/// The ids carried by a sequence of entries.
pub open spec fn spec_entry_ids(s: Seq<WindowEntryView>) -> Seq<Seq<char>> {
    s.map_values(|e: WindowEntryView| e.id)
}

/// No two positions of the sequence hold the same id.
pub open spec fn spec_unique_seq(ids: Seq<Seq<char>>) -> bool {
    forall|i: int, j: int| 0 <= i < j < ids.len() ==> ids[i] != ids[j]
}

} // verus!
