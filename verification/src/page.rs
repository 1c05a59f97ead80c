//! The object-list page: the modal view-state machine that routes key input,
//! the live filter/sort projection, and the download/copy orchestration.
//!
//! The page owns its master item list and never mutates it: filtering and
//! sorting only rebuild `view_indices`. Outbound work (navigation, downloads,
//! copies, clipboard) is emitted as `AppEventType` values into a queue that
//! the application shell drains and performs.

use vstd::prelude::*;

use crate::cursor::{
    spec_last_sel, spec_new_cursor, spec_moved, spec_next_page_sel, spec_next_sel, spec_prev_page_sel,
    spec_prev_sel, ScrollListState,
};
use crate::dialog::{
    copy_detail_entry, next_sort_type, prev_sort_type, ConfirmDialogState, CopyDetailDialogState,
    ObjectListSortDialogState,
};
use crate::events::{AppEventType, KeyInput, UserEvent};
use crate::help::{BuildHelpsItem, BuildShortHelpsItem};
use crate::input::{spec_after_key, InputDialogState};
use crate::item::{
    copy_item, copy_key, item_name, item_size, same_item, DownloadObjectInfo, ObjectItem,
    ObjectKey, PasteSpec,
};
use crate::projection::{
    filter_indices, filter_indices_exec, filter_matches, lemma_ascending_no_duplicates,
    lemma_filter_indices_props,
};
use crate::sort::{
    lemma_stable_sort_permutes, sort_indices, stable_sort_spec, ObjectListSortType,
};
use crate::text::{trim_spec, trim_str};

verus! {

/// The active modal; exactly one at a time, always returning to `Default`.
#[derive(Debug)]
pub enum ViewState {
    Default,
    FilterDialog,
    SortDialog,
    GoToPathDialog(InputDialogState),
    CopyDetailDialog(CopyDetailDialogState),
    DownloadConfirmDialog(Vec<DownloadObjectInfo>, ConfirmDialogState, bool),
    SaveDialog(InputDialogState, Option<Vec<DownloadObjectInfo>>),
    PasteConfirmDialog(PasteSpec, ConfirmDialogState),
}

/// The object set a save dialog carries, if the modal is one.
pub open spec fn save_dialog_objs(vs: ViewState) -> Option<Vec<DownloadObjectInfo>> {
    match vs {
        ViewState::SaveDialog(_, objs) => objs,
        _ => arbitrary(),
    }
}

/// The object set a download-confirm dialog holds, if the modal is one.
pub open spec fn confirm_dialog_objs(vs: ViewState) -> Vec<DownloadObjectInfo> {
    match vs {
        ViewState::DownloadConfirmDialog(objs, _, _) => objs,
        _ => arbitrary(),
    }
}

/// The bucket and segments a key addresses, as plain values.
pub open spec fn key_view(k: ObjectKey) -> (Seq<char>, Seq<Seq<char>>) {
    (k.bucket_name@, k.object_path.deep_view())
}

pub struct ObjectListPage {
    pub object_items: Vec<ObjectItem>,
    pub object_key: ObjectKey,
    pub view_indices: Vec<usize>,
    pub view_state: ViewState,
    pub list_state: ScrollListState,
    pub filter_input_state: InputDialogState,
    pub sort_dialog_state: ObjectListSortDialogState,
    pub pending_events: Vec<AppEventType>,
}

impl ObjectListPage {
    pub open spec fn items(self) -> Seq<ObjectItem> {
        self.object_items@
    }

    pub open spec fn proj(self) -> Seq<usize> {
        self.view_indices@
    }

    pub open spec fn filter_text(self) -> Seq<char> {
        self.filter_input_state.text()
    }

    pub open spec fn non_empty_spec(self) -> bool {
        self.view_indices@.len() > 0
    }

    /// The master index of the row the cursor is on.
    pub open spec fn sel_master_index(self) -> int {
        self.view_indices@[self.list_state.selected as int] as int
    }

    pub open spec fn selected_item(self) -> ObjectItem {
        self.items()[self.sel_master_index()]
    }

    /// The address of the selected entry: the page's own path plus its name.
    pub open spec fn selected_key_view(self) -> (Seq<char>, Seq<Seq<char>>) {
        (
            self.object_key.bucket_name@,
            self.object_key.object_path.deep_view().push(item_name(self.selected_item())),
        )
    }

    /// Dialog payloads stay consistent with the projection: dialogs that act
    /// on the selection only exist while something is selected, and a save
    /// dialog without a carried object set renames a concrete file.
    pub open spec fn dialogs_wf(self) -> bool {
        &&& (self.view_state matches ViewState::DownloadConfirmDialog(_, _, _)
            ==> self.non_empty_spec())
        &&& (self.view_state matches ViewState::SaveDialog(st, objs) ==> st.wf()
            && self.non_empty_spec() && (objs is None ==> self.selected_item() is File))
        &&& (self.view_state matches ViewState::GoToPathDialog(st) ==> st.wf())
        &&& (self.view_state matches ViewState::CopyDetailDialog(st) ==> st.wf())
    }

    /// The page invariant: every projected index is a distinct valid master
    /// index; the projection holds exactly the indices the filter keeps; the
    /// cursor ranges over the projection.
    pub open spec fn wf(self) -> bool {
        &&& forall|k: int|
            0 <= k < self.proj().len() ==> (#[trigger] self.proj()[k]) < self.items().len()
        &&& self.proj().to_multiset() == filter_indices(
            self.items(),
            self.filter_text(),
            self.items().len() as int,
        ).to_multiset()
        &&& self.list_state.wf()
        &&& self.list_state.total == self.proj().len()
        &&& self.filter_input_state.wf()
        &&& self.dialogs_wf()
    }

    /// All fields equal except the cursor.
    pub open spec fn only_cursor_differs(pre: Self, post: Self) -> bool {
        &&& post.object_items == pre.object_items
        &&& post.object_key == pre.object_key
        &&& post.view_indices == pre.view_indices
        &&& post.view_state == pre.view_state
        &&& post.filter_input_state == pre.filter_input_state
        &&& post.sort_dialog_state == pre.sort_dialog_state
        &&& post.pending_events == pre.pending_events
    }

    /// All fields equal except the active modal.
    pub open spec fn only_view_state_differs(pre: Self, post: Self) -> bool {
        &&& post.object_items == pre.object_items
        &&& post.object_key == pre.object_key
        &&& post.view_indices == pre.view_indices
        &&& post.list_state == pre.list_state
        &&& post.filter_input_state == pre.filter_input_state
        &&& post.sort_dialog_state == pre.sort_dialog_state
        &&& post.pending_events == pre.pending_events
    }

    /// All fields equal except the outbound event queue.
    pub open spec fn only_events_differ(pre: Self, post: Self) -> bool {
        &&& post.object_items == pre.object_items
        &&& post.object_key == pre.object_key
        &&& post.view_indices == pre.view_indices
        &&& post.view_state == pre.view_state
        &&& post.list_state == pre.list_state
        &&& post.filter_input_state == pre.filter_input_state
        &&& post.sort_dialog_state == pre.sort_dialog_state
    }

    /// All fields equal except the modal and the event queue.
    pub open spec fn only_view_state_and_events_differ(pre: Self, post: Self) -> bool {
        &&& post.object_items == pre.object_items
        &&& post.object_key == pre.object_key
        &&& post.view_indices == pre.view_indices
        &&& post.list_state == pre.list_state
        &&& post.filter_input_state == pre.filter_input_state
        &&& post.sort_dialog_state == pre.sort_dialog_state
    }

    /// Exactly one event was emitted.
    pub open spec fn pushed_one_event(pre: Self, post: Self) -> bool {
        post.pending_events@ == pre.pending_events@.push(post.pending_events@.last())
    }

    /// A page over a freshly loaded item list: identity projection, default
    /// modal, empty filter, default sort, nothing emitted yet.
    pub fn new(object_items: Vec<ObjectItem>, object_key: ObjectKey) -> (r: Self)
        ensures
            r.wf(),
            r.object_items == object_items,
            r.object_key == object_key,
            r.view_indices@.len() == object_items@.len(),
            forall|k: int| 0 <= k < r.view_indices@.len() ==> (#[trigger] r.view_indices@[k]) == k,
            r.view_state is Default,
            r.list_state == spec_new_cursor(object_items@.len() as usize),
            r.filter_text().len() == 0,
            r.sort_dialog_state.selected == ObjectListSortType::Default,
            r.pending_events@.len() == 0,
    {
        proof {
            reveal_strlit("");
        }
        let n = object_items.len();
        let view_indices = filter_indices_exec(&object_items, "");
        let ghost f = ""@;
        proof {
            assert(f =~= Seq::<char>::empty());
            lemma_filter_indices_props(object_items@, f, object_items@.len() as int);
            lemma_filter_empty_identity(object_items@, f, object_items@.len() as int);
        }
        let total = view_indices.len();
        ObjectListPage {
            object_items,
            object_key,
            view_indices,
            view_state: ViewState::Default,
            list_state: ScrollListState::new(total),
            filter_input_state: InputDialogState::default(),
            sort_dialog_state: ObjectListSortDialogState::default(),
            pending_events: Vec::new(),
        }
    }

    pub fn non_empty(&self) -> (r: bool)
        ensures
            r == self.non_empty_spec(),
    {
        self.view_indices.len() > 0
    }

    pub fn list_state(&self) -> (r: ScrollListState)
        ensures
            r == self.list_state,
    {
        self.list_state
    }

    /// Hand the emitted events to the application shell, oldest first.
    pub fn take_events(&mut self) -> (r: Vec<AppEventType>)
        ensures
            r == old(self).pending_events,
            final(self).pending_events@.len() == 0,
            Self::only_events_differ(*old(self), *final(self)),
            old(self).wf() ==> final(self).wf(),
    {
        let mut drained: Vec<AppEventType> = Vec::new();
        core::mem::swap(&mut drained, &mut self.pending_events);
        drained
    }

    /// The renderer reports the list's viewport height.
    pub fn update_list_height(&mut self, height: usize)
        requires
            old(self).wf(),
        ensures
            final(self).wf(),
            Self::only_cursor_differs(*old(self), *final(self)),
            final(self).list_state.selected == old(self).list_state.selected,
            final(self).list_state.total == old(self).list_state.total,
            final(self).list_state.height == height,
    {
        self.list_state.update_height(height);
    }

    pub fn select_next(&mut self)
        requires
            old(self).wf(),
            old(self).view_state is Default,
        ensures
            final(self).wf(),
            Self::only_cursor_differs(*old(self), *final(self)),
            final(self).list_state == spec_moved(
                old(self).list_state,
                spec_next_sel(old(self).list_state),
            ),
    {
        self.list_state.select_next();
    }

    pub fn select_prev(&mut self)
        requires
            old(self).wf(),
            old(self).view_state is Default,
        ensures
            final(self).wf(),
            Self::only_cursor_differs(*old(self), *final(self)),
            final(self).list_state == spec_moved(
                old(self).list_state,
                spec_prev_sel(old(self).list_state),
            ),
    {
        self.list_state.select_prev();
    }

    pub fn select_first(&mut self)
        requires
            old(self).wf(),
            old(self).view_state is Default,
        ensures
            final(self).wf(),
            Self::only_cursor_differs(*old(self), *final(self)),
            final(self).list_state == spec_moved(old(self).list_state, 0),
    {
        self.list_state.select_first();
    }

    pub fn select_last(&mut self)
        requires
            old(self).wf(),
            old(self).view_state is Default,
        ensures
            final(self).wf(),
            Self::only_cursor_differs(*old(self), *final(self)),
            final(self).list_state == spec_moved(
                old(self).list_state,
                spec_last_sel(old(self).list_state),
            ),
    {
        self.list_state.select_last();
    }

    pub fn select_next_page(&mut self)
        requires
            old(self).wf(),
            old(self).view_state is Default,
        ensures
            final(self).wf(),
            Self::only_cursor_differs(*old(self), *final(self)),
            final(self).list_state == spec_moved(
                old(self).list_state,
                spec_next_page_sel(old(self).list_state),
            ),
    {
        self.list_state.select_next_page();
    }

    pub fn select_prev_page(&mut self)
        requires
            old(self).wf(),
            old(self).view_state is Default,
        ensures
            final(self).wf(),
            Self::only_cursor_differs(*old(self), *final(self)),
            final(self).list_state == spec_moved(
                old(self).list_state,
                spec_prev_page_sel(old(self).list_state),
            ),
    {
        self.list_state.select_prev_page();
    }

    /// The projection a page shows for a given filter and sort: the matching
    /// master indices, stably ordered.
    pub open spec fn projection_of(
        items: Seq<ObjectItem>,
        filter: Seq<char>,
        ty: ObjectListSortType,
    ) -> Seq<usize> {
        stable_sort_spec(ty, items, filter_indices(items, filter, items.len() as int))
    }

    /// Recompute the projection for the current filter, reset the cursor to
    /// the top, and re-apply the selected sort.
    pub fn filter_view_indices(&mut self)
        requires
            old(self).filter_input_state.wf(),
            old(self).dialogs_wf(),
            !(old(self).view_state matches ViewState::DownloadConfirmDialog(_, _, _)),
            !(old(self).view_state matches ViewState::SaveDialog(_, _)),
        ensures
            final(self).wf(),
            final(self).object_items == old(self).object_items,
            final(self).object_key == old(self).object_key,
            final(self).view_state == old(self).view_state,
            final(self).filter_input_state == old(self).filter_input_state,
            final(self).sort_dialog_state == old(self).sort_dialog_state,
            final(self).pending_events == old(self).pending_events,
            final(self).view_indices@ == Self::projection_of(
                old(self).items(),
                old(self).filter_text(),
                old(self).sort_dialog_state.selected,
            ),
            final(self).list_state == spec_new_cursor(final(self).view_indices@.len() as usize),
    {
        let filter = self.filter_input_state.input();
        let n = self.object_items.len();
        let base = filter_indices_exec(&self.object_items, filter.as_str());
        proof {
            lemma_filter_indices_props(
                self.object_items@,
                filter@,
                self.object_items@.len() as int,
            );
        }
        let sorted = sort_indices(&self.object_items, self.sort_dialog_state.selected(), &base);
        proof {
            lemma_stable_sort_permutes(
                self.sort_dialog_state.selected,
                self.object_items@,
                base@,
            );
            lemma_proj_in_range(sorted@, base@, self.object_items@.len() as int);
        }
        let total = sorted.len();
        self.view_indices = sorted;
        self.list_state = ScrollListState::new(total);
    }

    /// Re-apply the selected sort to the current projection; the cursor is
    /// untouched.
    pub fn sort_view_indices(&mut self)
        requires
            old(self).wf(),
            !(old(self).view_state matches ViewState::SaveDialog(_, _)),
        ensures
            final(self).wf(),
            final(self).object_items == old(self).object_items,
            final(self).object_key == old(self).object_key,
            final(self).view_state == old(self).view_state,
            final(self).filter_input_state == old(self).filter_input_state,
            final(self).sort_dialog_state == old(self).sort_dialog_state,
            final(self).pending_events == old(self).pending_events,
            final(self).list_state == old(self).list_state,
            final(self).view_indices@ == stable_sort_spec(
                old(self).sort_dialog_state.selected,
                old(self).items(),
                old(self).view_indices@,
            ),
    {
        let sorted = sort_indices(
            &self.object_items,
            self.sort_dialog_state.selected(),
            &self.view_indices,
        );
        proof {
            lemma_stable_sort_permutes(
                self.sort_dialog_state.selected,
                self.object_items@,
                self.view_indices@,
            );
            lemma_proj_in_range(sorted@, self.view_indices@, self.object_items@.len() as int);
        }
        self.view_indices = sorted;
    }
}

impl ObjectListPage {
    pub fn open_filter_dialog(&mut self)
        requires
            old(self).wf(),
        ensures
            final(self).wf(),
            Self::only_view_state_differs(*old(self), *final(self)),
            final(self).view_state is FilterDialog,
    {
        self.view_state = ViewState::FilterDialog;
    }

    /// Closing the filter dialog also clears the filter: the narrowing is
    /// reverted, not just hidden.
    pub fn close_filter_dialog(&mut self)
        requires
            old(self).wf(),
            old(self).view_state is FilterDialog,
        ensures
            final(self).wf(),
            final(self).object_items == old(self).object_items,
            final(self).object_key == old(self).object_key,
            final(self).sort_dialog_state == old(self).sort_dialog_state,
            final(self).pending_events == old(self).pending_events,
            final(self).view_state is Default,
            final(self).filter_text().len() == 0,
            final(self).view_indices@ == Self::projection_of(
                old(self).items(),
                Seq::<char>::empty(),
                old(self).sort_dialog_state.selected,
            ),
            final(self).list_state == spec_new_cursor(final(self).view_indices@.len() as usize),
    {
        self.view_state = ViewState::Default;
        self.reset_filter();
        proof {
            assert(final(self).filter_text() =~= Seq::<char>::empty());
        }
    }

    /// Clear the filter and re-project.
    pub fn reset_filter(&mut self)
        requires
            old(self).wf(),
            old(self).view_state is Default,
        ensures
            final(self).wf(),
            final(self).object_items == old(self).object_items,
            final(self).object_key == old(self).object_key,
            final(self).view_state == old(self).view_state,
            final(self).sort_dialog_state == old(self).sort_dialog_state,
            final(self).pending_events == old(self).pending_events,
            final(self).filter_text().len() == 0,
            final(self).filter_input_state.cursor_spec() == 0,
            final(self).view_indices@ == Self::projection_of(
                old(self).items(),
                Seq::<char>::empty(),
                old(self).sort_dialog_state.selected,
            ),
            final(self).list_state == spec_new_cursor(final(self).view_indices@.len() as usize),
    {
        self.filter_input_state.clear_input();
        self.filter_view_indices();
        proof {
            assert(self.filter_text() =~= Seq::<char>::empty());
        }
    }

    /// Leave the filter dialog keeping the entered filter.
    pub fn apply_filter(&mut self)
        requires
            old(self).wf(),
            old(self).view_state is FilterDialog,
        ensures
            final(self).wf(),
            final(self).object_items == old(self).object_items,
            final(self).object_key == old(self).object_key,
            final(self).filter_input_state == old(self).filter_input_state,
            final(self).sort_dialog_state == old(self).sort_dialog_state,
            final(self).pending_events == old(self).pending_events,
            final(self).view_state is Default,
            final(self).view_indices@ == Self::projection_of(
                old(self).items(),
                old(self).filter_text(),
                old(self).sort_dialog_state.selected,
            ),
            final(self).list_state == spec_new_cursor(final(self).view_indices@.len() as usize),
    {
        self.view_state = ViewState::Default;
        self.filter_view_indices();
    }

    pub fn open_sort_dialog(&mut self)
        requires
            old(self).wf(),
        ensures
            final(self).wf(),
            Self::only_view_state_differs(*old(self), *final(self)),
            final(self).view_state is SortDialog,
    {
        self.view_state = ViewState::SortDialog;
    }

    /// Closing the sort dialog reverts the previewed ordering to the default.
    pub fn close_sort_dialog(&mut self)
        requires
            old(self).wf(),
            old(self).view_state is SortDialog,
        ensures
            final(self).wf(),
            final(self).object_items == old(self).object_items,
            final(self).object_key == old(self).object_key,
            final(self).filter_input_state == old(self).filter_input_state,
            final(self).pending_events == old(self).pending_events,
            final(self).list_state == old(self).list_state,
            final(self).view_state is Default,
            final(self).sort_dialog_state.selected == ObjectListSortType::Default,
            final(self).view_indices@ == stable_sort_spec(
                ObjectListSortType::Default,
                old(self).items(),
                old(self).view_indices@,
            ),
    {
        self.view_state = ViewState::Default;
        self.sort_dialog_state.reset();
        self.sort_view_indices();
    }

    /// Leave the sort dialog keeping the chosen ordering.
    pub fn apply_sort(&mut self)
        requires
            old(self).wf(),
            old(self).view_state is SortDialog,
        ensures
            final(self).wf(),
            final(self).object_items == old(self).object_items,
            final(self).object_key == old(self).object_key,
            final(self).filter_input_state == old(self).filter_input_state,
            final(self).sort_dialog_state == old(self).sort_dialog_state,
            final(self).pending_events == old(self).pending_events,
            final(self).list_state == old(self).list_state,
            final(self).view_state is Default,
            final(self).view_indices@ == stable_sort_spec(
                old(self).sort_dialog_state.selected,
                old(self).items(),
                old(self).view_indices@,
            ),
    {
        self.view_state = ViewState::Default;
        self.sort_view_indices();
    }

    /// Move the sort picker down and preview that ordering.
    pub fn select_next_sort_item(&mut self)
        requires
            old(self).wf(),
            old(self).view_state is SortDialog,
        ensures
            final(self).wf(),
            final(self).object_items == old(self).object_items,
            final(self).object_key == old(self).object_key,
            final(self).filter_input_state == old(self).filter_input_state,
            final(self).pending_events == old(self).pending_events,
            final(self).list_state == old(self).list_state,
            final(self).view_state == old(self).view_state,
            final(self).sort_dialog_state.selected == next_sort_type(
                old(self).sort_dialog_state.selected,
            ),
            final(self).view_indices@ == stable_sort_spec(
                next_sort_type(old(self).sort_dialog_state.selected),
                old(self).items(),
                old(self).view_indices@,
            ),
    {
        self.sort_dialog_state.select_next();
        self.sort_view_indices();
    }

    /// Move the sort picker up and preview that ordering.
    pub fn select_prev_sort_item(&mut self)
        requires
            old(self).wf(),
            old(self).view_state is SortDialog,
        ensures
            final(self).wf(),
            final(self).object_items == old(self).object_items,
            final(self).object_key == old(self).object_key,
            final(self).filter_input_state == old(self).filter_input_state,
            final(self).pending_events == old(self).pending_events,
            final(self).list_state == old(self).list_state,
            final(self).view_state == old(self).view_state,
            final(self).sort_dialog_state.selected == prev_sort_type(
                old(self).sort_dialog_state.selected,
            ),
            final(self).view_indices@ == stable_sort_spec(
                prev_sort_type(old(self).sort_dialog_state.selected),
                old(self).items(),
                old(self).view_indices@,
            ),
    {
        self.sort_dialog_state.select_prev();
        self.sort_view_indices();
    }

    pub fn open_go_to_path_dialog(&mut self)
        requires
            old(self).wf(),
        ensures
            final(self).wf(),
            Self::only_view_state_differs(*old(self), *final(self)),
            final(self).view_state matches ViewState::GoToPathDialog(st) && st.text()
                == crate::item::join_segments(old(self).object_key.object_path.deep_view())
                && st.cursor_spec() == st.text().len(),
    {
        let prefix = self.object_key.joined_object_path(false);
        self.view_state = ViewState::GoToPathDialog(InputDialogState::new(prefix));
    }

    pub fn open_copy_detail_dialog(&mut self)
        requires
            old(self).wf(),
            old(self).non_empty_spec(),
        ensures
            final(self).wf(),
            Self::only_view_state_differs(*old(self), *final(self)),
            final(self).view_state matches ViewState::CopyDetailDialog(st) && same_item(
                st.item_spec(),
                old(self).selected_item(),
            ) && st.selected_spec() == 0,
    {
        let item = copy_item(self.current_selected_item());
        let dialog_state = match &item {
            ObjectItem::Dir { .. } => CopyDetailDialogState::object_list_dir(item),
            ObjectItem::File { .. } => CopyDetailDialogState::object_list_file(item),
        };
        self.view_state = ViewState::CopyDetailDialog(dialog_state);
    }

    pub fn close_copy_detail_dialog(&mut self)
        requires
            old(self).wf(),
        ensures
            final(self).wf(),
            Self::only_view_state_differs(*old(self), *final(self)),
            final(self).view_state is Default,
    {
        self.view_state = ViewState::Default;
    }

    /// Show the confirm dialog for a bulk download whose object set has just
    /// been enumerated. Stale completions must be dropped by the caller: the
    /// dialog acts on the current selection.
    pub fn open_download_confirm_dialog(
        &mut self,
        objs: Vec<DownloadObjectInfo>,
        download_as: bool,
    )
        requires
            old(self).wf(),
            old(self).non_empty_spec(),
        ensures
            final(self).wf(),
            Self::only_view_state_differs(*old(self), *final(self)),
            final(self).view_state matches ViewState::DownloadConfirmDialog(o, st, da) && o == objs
                && !st.selected_ok && da == download_as,
    {
        let dialog_state = ConfirmDialogState::default();
        self.view_state = ViewState::DownloadConfirmDialog(objs, dialog_state, download_as);
    }

    pub fn close_download_confirm_dialog(&mut self)
        requires
            old(self).wf(),
        ensures
            final(self).wf(),
            Self::only_view_state_differs(*old(self), *final(self)),
            final(self).view_state is Default,
    {
        self.view_state = ViewState::Default;
    }

    /// Show the mandatory confirm dialog for a server-side copy.
    pub fn open_paste_confirm_dialog(&mut self, spec: PasteSpec)
        requires
            old(self).wf(),
        ensures
            final(self).wf(),
            Self::only_view_state_differs(*old(self), *final(self)),
            final(self).view_state matches ViewState::PasteConfirmDialog(p, st) && p == spec
                && !st.selected_ok,
    {
        let dialog_state = ConfirmDialogState::default();
        self.view_state = ViewState::PasteConfirmDialog(spec, dialog_state);
    }

    pub fn close_paste_confirm_dialog(&mut self)
        requires
            old(self).wf(),
        ensures
            final(self).wf(),
            Self::only_view_state_differs(*old(self), *final(self)),
            final(self).view_state is Default,
    {
        self.view_state = ViewState::Default;
    }

    /// Request the download of the selection: a file of known size starts at
    /// once; a directory is first enumerated so its cost can be confirmed.
    pub fn start_download(&mut self)
        requires
            old(self).wf(),
            old(self).non_empty_spec(),
        ensures
            final(self).wf(),
            Self::only_events_differ(*old(self), *final(self)),
            Self::pushed_one_event(*old(self), *final(self)),
            !(old(self).selected_item() is File) ==> (final(self).pending_events@.last()
                matches AppEventType::StartLoadAllDownloadObjectList(k, da) && key_view(k) == old(
                self,
            ).selected_key_view() && da == false),
            old(self).selected_item() is File ==> (final(self).pending_events@.last()
                matches AppEventType::StartDownloadObject(k, nm, sz, v) && key_view(k) == old(
                self,
            ).selected_key_view() && nm@ == item_name(old(self).selected_item()) && Some(sz)
                == item_size(old(self).selected_item()) && v is None),
    {
        let key = self.current_selected_object_key();
        let item = self.current_selected_item();
        match item.size_byte() {
            None => {
                self.pending_events.push(
                    AppEventType::StartLoadAllDownloadObjectList(key, false),
                );
            },
            Some(size_byte) => {
                let object_name = item.name().clone();
                self.pending_events.push(
                    AppEventType::StartDownloadObject(key, object_name, size_byte, None),
                );
            },
        }
    }

    /// Request a download under a different name: a directory is enumerated
    /// with the rename flag; a file opens the save dialog directly.
    pub fn start_download_as(&mut self)
        requires
            old(self).wf(),
            old(self).non_empty_spec(),
        ensures
            final(self).wf(),
            !(old(self).selected_item() is File) ==> Self::only_events_differ(
                *old(self),
                *final(self),
            ) && Self::pushed_one_event(*old(self), *final(self)) && (final(self).pending_events@.last() matches AppEventType::StartLoadAllDownloadObjectList(k, da)
                && key_view(k) == old(self).selected_key_view() && da == true),
            old(self).selected_item() is File ==> Self::only_view_state_differs(
                *old(self),
                *final(self),
            ) && (final(self).view_state matches ViewState::SaveDialog(st, o) && st.text()
                == item_name(old(self).selected_item()) && st.cursor_spec() == st.text().len()
                && o is None),
    {
        let item = self.current_selected_item();
        match item.size_byte() {
            None => {
                let key = self.current_selected_object_key();
                self.pending_events.push(AppEventType::StartLoadAllDownloadObjectList(key, true));
            },
            Some(_) => {
                let name = item.name().clone();
                self.view_state = ViewState::SaveDialog(InputDialogState::new(name), None);
            },
        }
    }

    /// Confirm or dismiss the download dialog. With the toggle on "cancel"
    /// the dialog closes and nothing is requested; on "ok" the pending set is
    /// either sent as one bulk request or carried into the save dialog when a
    /// rename was asked for.
    pub fn download(&mut self)
        requires
            old(self).wf(),
        ensures
            final(self).wf(),
            !(old(self).view_state matches ViewState::DownloadConfirmDialog(_, _, _)) ==> *final(self) == *old(self),
            old(self).view_state matches ViewState::DownloadConfirmDialog(objs, st, da) ==> ((
            !st.selected_ok ==> Self::only_view_state_differs(*old(self), *final(self)) && final(self).view_state is Default) && (st.selected_ok && da ==> Self::only_view_state_differs(
                *old(self),
                *final(self),
            ) && (final(self).view_state matches ViewState::SaveDialog(ist, o) && ist.text()
                == item_name(old(self).selected_item()) && ist.cursor_spec() == ist.text().len()
                && o == Some(objs))) && (st.selected_ok && !da
                ==> Self::only_view_state_and_events_differ(*old(self), *final(self)) && final(self).view_state is Default && Self::pushed_one_event(*old(self), *final(self)) && (final(self).pending_events@.last() matches AppEventType::DownloadObjects(b, k, d, o) && b@ == old(self).object_key.bucket_name@ && key_view(k) == old(self).selected_key_view() && d@
                == item_name(old(self).selected_item()) && o == objs))),
    {
        let mut vs = ViewState::Default;
        core::mem::swap(&mut vs, &mut self.view_state);
        match vs {
            ViewState::DownloadConfirmDialog(objs, st, download_as) => {
                if st.is_ok() {
                    if download_as {
                        let name = self.current_selected_item().name().clone();
                        self.view_state = ViewState::SaveDialog(
                            InputDialogState::new(name),
                            Some(objs),
                        );
                    } else {
                        let bucket = self.object_key.bucket_name.clone();
                        let key = self.current_selected_object_key();
                        let dir = self.current_selected_item().name().clone();
                        self.pending_events.push(
                            AppEventType::DownloadObjects(bucket, key, dir, objs),
                        );
                    }
                }
            },
            other => {
                self.view_state = other;
            },
        }
    }

    /// Apply the save dialog: an empty name re-prompts; otherwise a carried
    /// object set becomes a bulk download into the named directory, and
    /// without one the selected file is downloaded under the new name.
    pub fn download_as(&mut self, input: String)
        requires
            old(self).wf(),
        ensures
            final(self).wf(),
            !(old(self).view_state matches ViewState::SaveDialog(_, _)) ==> *final(self) == *old(self),
            trim_spec(input@).len() == 0 ==> *final(self) == *old(self),
            old(self).view_state matches ViewState::SaveDialog(st, objs_opt) && trim_spec(
                input@,
            ).len() > 0 ==> (Self::only_view_state_and_events_differ(*old(self), *final(self))
                && final(self).view_state is Default && Self::pushed_one_event(
                *old(self),
                *final(self),
            )),
            old(self).view_state matches ViewState::SaveDialog(st, objs_opt) && trim_spec(
                input@,
            ).len() > 0 && objs_opt is Some ==> (final(self).pending_events@.last()
                matches AppEventType::DownloadObjects(b, k, d, o) && b@ == old(
                self,
            ).object_key.bucket_name@ && key_view(k) == old(self).selected_key_view() && d@
                == trim_spec(input@) && Some(o) == save_dialog_objs(old(self).view_state)),
            old(self).view_state matches ViewState::SaveDialog(st, objs_opt) && trim_spec(
                input@,
            ).len() > 0 && objs_opt is None ==> (final(self).pending_events@.last()
                matches AppEventType::StartDownloadObjectAs(k, sz, nm, v) && key_view(k) == old(
                self,
            ).selected_key_view() && Some(sz) == item_size(old(self).selected_item()) && nm@
                == trim_spec(input@) && v is None),
    {
        match &self.view_state {
            ViewState::SaveDialog(_, _) => {},
            _ => {
                return ;
            },
        }
        let trimmed = trim_str(input.as_str());
        if trimmed.as_str().unicode_len() == 0 {
            return ;
        }
        let mut vs = ViewState::Default;
        core::mem::swap(&mut vs, &mut self.view_state);
        match vs {
            ViewState::SaveDialog(_, objs_opt) => {
                match objs_opt {
                    Some(objs) => {
                        let bucket = self.object_key.bucket_name.clone();
                        let key = self.current_selected_object_key();
                        self.pending_events.push(
                            AppEventType::DownloadObjects(bucket, key, trimmed, objs),
                        );
                    },
                    None => {
                        let key = self.current_selected_object_key();
                        let size_byte = match self.current_selected_item().size_byte() {
                            Some(s) => s,
                            None => {
                                proof {
                                    assert(false);
                                }
                                0
                            },
                        };
                        self.pending_events.push(
                            AppEventType::StartDownloadObjectAs(key, size_byte, trimmed, None),
                        );
                    },
                }
            },
            _ => {
                proof {
                    assert(false);
                }
            },
        }
    }

    pub fn close_save_dialog(&mut self)
        requires
            old(self).wf(),
        ensures
            final(self).wf(),
            Self::only_view_state_differs(*old(self), *final(self)),
            final(self).view_state is Default,
    {
        self.view_state = ViewState::Default;
    }

    /// Ask the shell to open the storage console on the current directory.
    pub fn open_management_console(&mut self)
        requires
            old(self).wf(),
        ensures
            final(self).wf(),
            Self::only_events_differ(*old(self), *final(self)),
            Self::pushed_one_event(*old(self), *final(self)),
            final(self).pending_events@.last()
                matches AppEventType::ObjectListOpenManagementConsole(k) && key_view(k) == key_view(
                old(self).object_key,
            ),
    {
        let key = copy_key(&self.object_key);
        self.pending_events.push(AppEventType::ObjectListOpenManagementConsole(key));
    }

    /// Confirm or dismiss the paste dialog. Only the "ok" position emits the
    /// copy request; either way the dialog closes and the spec is given up.
    pub fn paste(&mut self)
        requires
            old(self).wf(),
        ensures
            final(self).wf(),
            !(old(self).view_state matches ViewState::PasteConfirmDialog(_, _)) ==> *final(self)
                == *old(self),
            old(self).view_state matches ViewState::PasteConfirmDialog(ps, st) ==> final(self).view_state is Default && ((!st.selected_ok ==> Self::only_view_state_differs(
                *old(self),
                *final(self),
            )) && (st.selected_ok ==> Self::only_view_state_and_events_differ(
                *old(self),
                *final(self),
            ) && Self::pushed_one_event(*old(self), *final(self)) && final(self).pending_events@.last() == AppEventType::PasteObject(ps))),
    {
        let mut vs = ViewState::Default;
        core::mem::swap(&mut vs, &mut self.view_state);
        match vs {
            ViewState::PasteConfirmDialog(ps, st) => {
                if st.is_ok() {
                    self.pending_events.push(AppEventType::PasteObject(ps));
                }
            },
            other => {
                self.view_state = other;
            },
        }
    }

    /// The item the cursor is on.
    pub fn current_selected_item(&self) -> (r: &ObjectItem)
        requires
            self.wf(),
            self.non_empty_spec(),
        ensures
            *r == self.selected_item(),
    {
        let i = self.view_indices[self.list_state.selected];
        &self.object_items[i]
    }

    /// The directory this page lists; the selection plays no part in it.
    pub fn current_dir_object_key(&self) -> (r: &ObjectKey)
        ensures
            *r == self.object_key,
    {
        &self.object_key
    }

    /// The address of the selected entry.
    pub fn current_selected_object_key(&self) -> (r: ObjectKey)
        requires
            self.wf(),
            self.non_empty_spec(),
        ensures
            key_view(r) == self.selected_key_view(),
    {
        let mut key = copy_key(&self.object_key);
        let ghost dv = key.object_path.deep_view();
        let name = self.current_selected_item().name().clone();
        key.object_path.push(name);
        proof {
            assert(key.object_path.deep_view() =~= dv.push(item_name(self.selected_item())));
            assert(key.object_path.deep_view() =~= self.object_key.object_path.deep_view().push(
                item_name(self.selected_item()),
            ));
        }
        key
    }

    /// The items of the current projection, in display order.
    pub fn object_list(&self) -> (r: Vec<ObjectItem>)
        requires
            self.wf(),
        ensures
            r@.len() == self.proj().len(),
            forall|i: int|
                0 <= i < r@.len() ==> same_item(
                    #[trigger] r@[i],
                    self.items()[self.proj()[i] as int],
                ),
    {
        let mut out: Vec<ObjectItem> = Vec::new();
        let mut i: usize = 0;
        while i < self.view_indices.len()
            invariant
                self.wf(),
                i <= self.proj().len(),
                out@.len() == i,
                forall|j: int|
                    0 <= j < i ==> same_item(
                        #[trigger] out@[j],
                        self.items()[self.proj()[j] as int],
                    ),
            decreases self.proj().len() - i,
        {
            let idx = self.view_indices[i];
            out.push(copy_item(&self.object_items[idx]));
            i = i + 1;
        }
        out
    }
}

impl ObjectListPage {
    /// Exactly this event was emitted and nothing else changed.
    pub open spec fn pushed_exact(pre: Self, post: Self, e: AppEventType) -> bool {
        Self::only_events_differ(pre, post) && post.pending_events@ == pre.pending_events@.push(e)
    }

    /// What requesting a download of the selection does.
    pub open spec fn start_download_rel(pre: Self, post: Self) -> bool {
        &&& Self::only_events_differ(pre, post)
        &&& Self::pushed_one_event(pre, post)
        &&& (!(pre.selected_item() is File) ==> (post.pending_events@.last()
            matches AppEventType::StartLoadAllDownloadObjectList(k, da) && key_view(k)
            == pre.selected_key_view() && da == false))
        &&& (pre.selected_item() is File ==> (post.pending_events@.last()
            matches AppEventType::StartDownloadObject(k, nm, sz, v) && key_view(k)
            == pre.selected_key_view() && nm@ == item_name(pre.selected_item()) && Some(sz)
            == item_size(pre.selected_item()) && v is None))
    }

    /// What requesting a renamed download of the selection does.
    pub open spec fn start_download_as_rel(pre: Self, post: Self) -> bool {
        &&& (!(pre.selected_item() is File) ==> Self::only_events_differ(pre, post)
            && Self::pushed_one_event(pre, post) && (post.pending_events@.last()
            matches AppEventType::StartLoadAllDownloadObjectList(k, da) && key_view(k)
            == pre.selected_key_view() && da == true))
        &&& (pre.selected_item() is File ==> Self::only_view_state_differs(pre, post) && (
        post.view_state matches ViewState::SaveDialog(st, o) && st.text() == item_name(
            pre.selected_item(),
        ) && st.cursor_spec() == st.text().len() && o is None))
    }

    /// What clearing the filter does.
    pub open spec fn reset_filter_rel(pre: Self, post: Self) -> bool {
        &&& post.object_items == pre.object_items
        &&& post.object_key == pre.object_key
        &&& post.view_state == pre.view_state
        &&& post.sort_dialog_state == pre.sort_dialog_state
        &&& post.pending_events == pre.pending_events
        &&& post.filter_text().len() == 0
        &&& post.filter_input_state.cursor_spec() == 0
        &&& post.view_indices@ == Self::projection_of(
            pre.items(),
            Seq::<char>::empty(),
            pre.sort_dialog_state.selected,
        )
        &&& post.list_state == spec_new_cursor(post.view_indices@.len() as usize)
    }

    /// What one recognized event does in the default list view.
    pub open spec fn step_default(pre: Self, post: Self, ev: UserEvent) -> bool {
        match ev {
            UserEvent::ObjectListSelect => Self::pushed_exact(
                pre,
                post,
                AppEventType::ObjectListMoveDown,
            ),
            UserEvent::ObjectListBack => Self::pushed_exact(
                pre,
                post,
                AppEventType::ObjectListMoveUp,
            ),
            UserEvent::ObjectListDown => Self::only_cursor_differs(pre, post) && post.list_state
                == spec_moved(pre.list_state, spec_next_sel(pre.list_state)),
            UserEvent::ObjectListUp => Self::only_cursor_differs(pre, post) && post.list_state
                == spec_moved(pre.list_state, spec_prev_sel(pre.list_state)),
            UserEvent::ObjectListGoToTop => Self::only_cursor_differs(pre, post) && post.list_state
                == spec_moved(pre.list_state, 0),
            UserEvent::ObjectListGoToBottom => Self::only_cursor_differs(pre, post)
                && post.list_state == spec_moved(pre.list_state, spec_last_sel(pre.list_state)),
            UserEvent::ObjectListPageDown => Self::only_cursor_differs(pre, post)
                && post.list_state == spec_moved(
                pre.list_state,
                spec_next_page_sel(pre.list_state),
            ),
            UserEvent::ObjectListPageUp => Self::only_cursor_differs(pre, post) && post.list_state
                == spec_moved(pre.list_state, spec_prev_page_sel(pre.list_state)),
            UserEvent::ObjectListRefresh => Self::pushed_exact(
                pre,
                post,
                AppEventType::ObjectListRefresh,
            ),
            UserEvent::ObjectListBucketList => Self::pushed_exact(
                pre,
                post,
                AppEventType::BackToBucketList,
            ),
            UserEvent::ObjectListManagementConsole => Self::only_events_differ(pre, post)
                && Self::pushed_one_event(pre, post) && (post.pending_events@.last()
                matches AppEventType::ObjectListOpenManagementConsole(k) && key_view(k) == key_view(
                pre.object_key,
            )),
            UserEvent::ObjectListFilter => Self::only_view_state_differs(pre, post)
                && post.view_state is FilterDialog,
            UserEvent::ObjectListSort => Self::only_view_state_differs(pre, post)
                && post.view_state is SortDialog,
            UserEvent::ObjectListGoToPath => Self::only_view_state_differs(pre, post) && (
            post.view_state matches ViewState::GoToPathDialog(st) && st.text()
                == crate::item::join_segments(pre.object_key.object_path.deep_view())
                && st.cursor_spec() == st.text().len()),
            UserEvent::ObjectListCopyObject => Self::only_events_differ(pre, post)
                && Self::pushed_one_event(pre, post) && (post.pending_events@.last()
                matches AppEventType::CopyObject(k, it) && key_view(k) == pre.selected_key_view()
                && same_item(it, pre.selected_item())),
            UserEvent::ObjectListPasteObject => Self::only_events_differ(pre, post)
                && Self::pushed_one_event(pre, post) && (post.pending_events@.last()
                matches AppEventType::StartPasteObject(k) && key_view(k) == key_view(
                pre.object_key,
            )),
            UserEvent::ObjectListCopyDetails => Self::only_view_state_differs(pre, post) && (
            post.view_state matches ViewState::CopyDetailDialog(st) && same_item(
                st.item_spec(),
                pre.selected_item(),
            ) && st.selected_spec() == 0),
            UserEvent::ObjectListDownloadObject => Self::start_download_rel(pre, post),
            UserEvent::ObjectListDownloadObjectAs => Self::start_download_as_rel(pre, post),
            UserEvent::Help => Self::pushed_exact(pre, post, AppEventType::OpenHelp),
            UserEvent::ObjectListResetFilter => Self::reset_filter_rel(pre, post),
            _ => true,
        }
    }

    /// What applying the current filter projection does (the cursor resets).
    pub open spec fn projected_rel(pre: Self, post: Self, filter: Seq<char>) -> bool {
        &&& post.view_indices@ == Self::projection_of(
            pre.items(),
            filter,
            pre.sort_dialog_state.selected,
        )
        &&& post.list_state == spec_new_cursor(post.view_indices@.len() as usize)
    }

    /// What one batch does in the filter dialog: apply and close keep or
    /// clear the filter; any other key edits it and re-projects live.
    pub open spec fn step_filter_dialog(
        pre: Self,
        post: Self,
        fr: Option<UserEvent>,
        key: KeyInput,
    ) -> bool {
        match fr {
            Some(UserEvent::InputDialogApply) => {
                &&& post.object_items == pre.object_items
                &&& post.object_key == pre.object_key
                &&& post.filter_input_state == pre.filter_input_state
                &&& post.sort_dialog_state == pre.sort_dialog_state
                &&& post.pending_events == pre.pending_events
                &&& post.view_state is Default
                &&& Self::projected_rel(pre, post, pre.filter_text())
            },
            Some(UserEvent::InputDialogClose) => {
                &&& post.object_items == pre.object_items
                &&& post.object_key == pre.object_key
                &&& post.sort_dialog_state == pre.sort_dialog_state
                &&& post.pending_events == pre.pending_events
                &&& post.view_state is Default
                &&& post.filter_text().len() == 0
                &&& Self::projected_rel(pre, post, Seq::<char>::empty())
            },
            Some(UserEvent::Help) => Self::pushed_exact(pre, post, AppEventType::OpenHelp),
            None => {
                &&& post.object_items == pre.object_items
                &&& post.object_key == pre.object_key
                &&& post.sort_dialog_state == pre.sort_dialog_state
                &&& post.pending_events == pre.pending_events
                &&& post.view_state is FilterDialog
                &&& post.filter_text() == spec_after_key(
                    pre.filter_text(),
                    pre.filter_input_state.cursor_spec(),
                    key,
                ).0
                &&& post.filter_input_state.cursor_spec() == spec_after_key(
                    pre.filter_text(),
                    pre.filter_input_state.cursor_spec(),
                    key,
                ).1
                &&& Self::projected_rel(pre, post, post.filter_text())
            },
            _ => true,
        }
    }

    /// What one batch does in a text dialog that is not the filter.
    pub open spec fn text_dialog_edited(pre: Self, post: Self, key: KeyInput) -> bool {
        &&& Self::only_view_state_differs(pre, post)
        &&& input_dialog_of(post.view_state).text() == spec_after_key(
            input_dialog_of(pre.view_state).text(),
            input_dialog_of(pre.view_state).cursor_spec(),
            key,
        ).0
        &&& input_dialog_of(post.view_state).cursor_spec() == spec_after_key(
            input_dialog_of(pre.view_state).text(),
            input_dialog_of(pre.view_state).cursor_spec(),
            key,
        ).1
    }

    /// What one batch does in the go-to-path dialog.
    pub open spec fn step_go_to_path(
        pre: Self,
        post: Self,
        fr: Option<UserEvent>,
        key: KeyInput,
    ) -> bool {
        match fr {
            Some(UserEvent::InputDialogClose) => Self::only_view_state_differs(pre, post)
                && post.view_state is Default,
            Some(UserEvent::InputDialogApply) => {
                &&& Self::only_view_state_and_events_differ(pre, post)
                &&& post.view_state is Default
                &&& Self::pushed_one_event(pre, post)
                &&& (post.pending_events@.last() matches AppEventType::GoToPath(k)
                    && k.bucket_name@ == pre.object_key.bucket_name@ && k.object_path.deep_view()
                    == crate::item::path_segments(
                    crate::text::trim_spec(input_dialog_of(pre.view_state).text()),
                ))
            },
            Some(UserEvent::Help) => Self::pushed_exact(pre, post, AppEventType::OpenHelp),
            None => Self::text_dialog_edited(pre, post, key) && post.view_state
                matches ViewState::GoToPathDialog(_),
            _ => true,
        }
    }

    /// What one batch does in the sort dialog.
    pub open spec fn step_sort_dialog(pre: Self, post: Self, ev: UserEvent) -> bool {
        match ev {
            UserEvent::SelectDialogClose => {
                &&& post.object_items == pre.object_items
                &&& post.object_key == pre.object_key
                &&& post.filter_input_state == pre.filter_input_state
                &&& post.pending_events == pre.pending_events
                &&& post.list_state == pre.list_state
                &&& post.view_state is Default
                &&& post.sort_dialog_state.selected == ObjectListSortType::Default
                &&& post.view_indices@ == stable_sort_spec(
                    ObjectListSortType::Default,
                    pre.items(),
                    pre.view_indices@,
                )
            },
            UserEvent::SelectDialogDown => {
                &&& post.object_items == pre.object_items
                &&& post.object_key == pre.object_key
                &&& post.filter_input_state == pre.filter_input_state
                &&& post.pending_events == pre.pending_events
                &&& post.list_state == pre.list_state
                &&& post.view_state == pre.view_state
                &&& post.sort_dialog_state.selected == next_sort_type(
                    pre.sort_dialog_state.selected,
                )
                &&& post.view_indices@ == stable_sort_spec(
                    next_sort_type(pre.sort_dialog_state.selected),
                    pre.items(),
                    pre.view_indices@,
                )
            },
            UserEvent::SelectDialogUp => {
                &&& post.object_items == pre.object_items
                &&& post.object_key == pre.object_key
                &&& post.filter_input_state == pre.filter_input_state
                &&& post.pending_events == pre.pending_events
                &&& post.list_state == pre.list_state
                &&& post.view_state == pre.view_state
                &&& post.sort_dialog_state.selected == prev_sort_type(
                    pre.sort_dialog_state.selected,
                )
                &&& post.view_indices@ == stable_sort_spec(
                    prev_sort_type(pre.sort_dialog_state.selected),
                    pre.items(),
                    pre.view_indices@,
                )
            },
            UserEvent::SelectDialogSelect => {
                &&& post.object_items == pre.object_items
                &&& post.object_key == pre.object_key
                &&& post.filter_input_state == pre.filter_input_state
                &&& post.sort_dialog_state == pre.sort_dialog_state
                &&& post.pending_events == pre.pending_events
                &&& post.list_state == pre.list_state
                &&& post.view_state is Default
                &&& post.view_indices@ == stable_sort_spec(
                    pre.sort_dialog_state.selected,
                    pre.items(),
                    pre.view_indices@,
                )
            },
            UserEvent::Help => Self::pushed_exact(pre, post, AppEventType::OpenHelp),
            _ => true,
        }
    }

    /// What one batch does in the copy-detail dialog.
    pub open spec fn step_copy_detail(pre: Self, post: Self, ev: UserEvent) -> bool {
        match ev {
            UserEvent::SelectDialogClose => Self::only_view_state_differs(pre, post)
                && post.view_state is Default,
            UserEvent::SelectDialogDown => Self::only_view_state_differs(pre, post) && (
            post.view_state matches ViewState::CopyDetailDialog(st) && st.item_spec()
                == copy_detail_of(pre.view_state).item_spec() && st.selected_spec() == (if
            copy_detail_of(pre.view_state).selected_spec() + 1 < crate::dialog::copy_detail_count(
                copy_detail_of(pre.view_state).item_spec(),
            ) {
                copy_detail_of(pre.view_state).selected_spec() + 1
            } else {
                copy_detail_of(pre.view_state).selected_spec()
            })),
            UserEvent::SelectDialogUp => Self::only_view_state_differs(pre, post) && (
            post.view_state matches ViewState::CopyDetailDialog(st) && st.item_spec()
                == copy_detail_of(pre.view_state).item_spec() && st.selected_spec() == (if
            copy_detail_of(pre.view_state).selected_spec() > 0 {
                copy_detail_of(pre.view_state).selected_spec() - 1
            } else {
                0int
            })),
            UserEvent::SelectDialogSelect => Self::only_events_differ(pre, post)
                && Self::pushed_one_event(pre, post) && (post.pending_events@.last()
                matches AppEventType::CopyToClipboard(nm, val) && nm@ == copy_detail_entry(
                copy_detail_of(pre.view_state).item_spec(),
                copy_detail_of(pre.view_state).selected_spec(),
            ).0 && val@ == copy_detail_entry(
                copy_detail_of(pre.view_state).item_spec(),
                copy_detail_of(pre.view_state).selected_spec(),
            ).1),
            UserEvent::Help => Self::pushed_exact(pre, post, AppEventType::OpenHelp),
            _ => true,
        }
    }

    /// What confirming the download dialog does, by toggle and rename flag.
    pub open spec fn download_rel(pre: Self, post: Self) -> bool {
        &&& (!confirm_toggle_of(pre.view_state).selected_ok ==> Self::only_view_state_differs(
            pre,
            post,
        ) && post.view_state is Default)
        &&& (confirm_toggle_of(pre.view_state).selected_ok && confirm_download_as_of(
            pre.view_state,
        ) ==> Self::only_view_state_differs(pre, post) && (post.view_state
            matches ViewState::SaveDialog(ist, o) && ist.text() == item_name(pre.selected_item())
            && ist.cursor_spec() == ist.text().len() && o == Some(
            confirm_dialog_objs(pre.view_state),
        )))
        &&& (confirm_toggle_of(pre.view_state).selected_ok && !confirm_download_as_of(
            pre.view_state,
        ) ==> Self::only_view_state_and_events_differ(pre, post) && post.view_state is Default
            && Self::pushed_one_event(pre, post) && (post.pending_events@.last()
            matches AppEventType::DownloadObjects(b, k, d, o) && b@ == pre.object_key.bucket_name@
            && key_view(k) == pre.selected_key_view() && d@ == item_name(pre.selected_item()) && o
            == confirm_dialog_objs(pre.view_state)))
    }

    /// What one batch does in the download-confirm dialog.
    pub open spec fn step_download_confirm(pre: Self, post: Self, ev: UserEvent) -> bool {
        match ev {
            UserEvent::SelectDialogClose => Self::only_view_state_differs(pre, post)
                && post.view_state is Default,
            UserEvent::SelectDialogLeft | UserEvent::SelectDialogRight => {
                Self::only_view_state_differs(pre, post) && (post.view_state
                    matches ViewState::DownloadConfirmDialog(o, st, da) && o == confirm_dialog_objs(
                    pre.view_state,
                ) && st.selected_ok == !confirm_toggle_of(pre.view_state).selected_ok && da
                    == confirm_download_as_of(pre.view_state))
            },
            UserEvent::SelectDialogSelect => Self::download_rel(pre, post),
            UserEvent::Help => Self::pushed_exact(pre, post, AppEventType::OpenHelp),
            _ => true,
        }
    }

    /// What one batch does in the paste-confirm dialog.
    pub open spec fn step_paste_confirm(pre: Self, post: Self, ev: UserEvent) -> bool {
        match ev {
            UserEvent::SelectDialogClose => Self::only_view_state_differs(pre, post)
                && post.view_state is Default,
            UserEvent::SelectDialogLeft | UserEvent::SelectDialogRight => {
                Self::only_view_state_differs(pre, post) && (post.view_state
                    matches ViewState::PasteConfirmDialog(p, st) && p == paste_spec_of(
                    pre.view_state,
                ) && st.selected_ok == !confirm_toggle_of(pre.view_state).selected_ok)
            },
            UserEvent::SelectDialogSelect => {
                &&& post.view_state is Default
                &&& (!confirm_toggle_of(pre.view_state).selected_ok
                    ==> Self::only_view_state_differs(pre, post))
                &&& (confirm_toggle_of(pre.view_state).selected_ok
                    ==> Self::only_view_state_and_events_differ(pre, post)
                    && Self::pushed_one_event(pre, post) && post.pending_events@.last()
                    == AppEventType::PasteObject(paste_spec_of(pre.view_state)))
            },
            UserEvent::Help => Self::pushed_exact(pre, post, AppEventType::OpenHelp),
            _ => true,
        }
    }

    /// What applying the save dialog with its current text does.
    pub open spec fn download_as_rel(pre: Self, post: Self) -> bool {
        {
            let entered = input_dialog_of(pre.view_state).text();
            let objs_opt = save_dialog_objs(pre.view_state);
            &&& (trim_spec(entered).len() == 0 ==> post == pre)
            &&& (trim_spec(entered).len() > 0 ==> Self::only_view_state_and_events_differ(
                pre,
                post,
            ) && post.view_state is Default && Self::pushed_one_event(pre, post))
            &&& (trim_spec(entered).len() > 0 && objs_opt is Some ==> (post.pending_events@.last()
                matches AppEventType::DownloadObjects(b, k, d, o) && b@
                == pre.object_key.bucket_name@ && key_view(k) == pre.selected_key_view() && d@
                == trim_spec(entered) && Some(o) == objs_opt))
            &&& (trim_spec(entered).len() > 0 && objs_opt is None ==> (post.pending_events@.last()
                matches AppEventType::StartDownloadObjectAs(k, sz, nm, v) && key_view(k)
                == pre.selected_key_view() && Some(sz) == item_size(pre.selected_item()) && nm@
                == trim_spec(entered) && v is None))
        }
    }

    /// What one batch does in the save dialog.
    pub open spec fn step_save_dialog(
        pre: Self,
        post: Self,
        fr: Option<UserEvent>,
        key: KeyInput,
    ) -> bool {
        match fr {
            Some(UserEvent::InputDialogClose) => Self::only_view_state_differs(pre, post)
                && post.view_state is Default,
            Some(UserEvent::InputDialogApply) => Self::download_as_rel(pre, post),
            Some(UserEvent::Help) => Self::pushed_exact(pre, post, AppEventType::OpenHelp),
            None => Self::text_dialog_edited(pre, post, key) && (post.view_state
                matches ViewState::SaveDialog(_, o) && o == save_dialog_objs(pre.view_state)),
            _ => true,
        }
    }

    /// The whole key-routing step: what the recognized event (or, in a text
    /// dialog, the raw key) does in the active modal. Strict dialogs ignore
    /// unrecognized batches entirely.
    pub open spec fn step(pre: Self, post: Self, events: Seq<UserEvent>, key: KeyInput) -> bool {
        {
            let fr = first_recognized(events, pre.view_state, pre.non_empty_spec());
            match pre.view_state {
                ViewState::Default => match fr {
                    None => post == pre,
                    Some(ev) => Self::step_default(pre, post, ev),
                },
                ViewState::FilterDialog => Self::step_filter_dialog(pre, post, fr, key),
                ViewState::GoToPathDialog(_) => Self::step_go_to_path(pre, post, fr, key),
                ViewState::SortDialog => match fr {
                    None => post == pre,
                    Some(ev) => Self::step_sort_dialog(pre, post, ev),
                },
                ViewState::CopyDetailDialog(_) => match fr {
                    None => post == pre,
                    Some(ev) => Self::step_copy_detail(pre, post, ev),
                },
                ViewState::DownloadConfirmDialog(_, _, _) => match fr {
                    None => post == pre,
                    Some(ev) => Self::step_download_confirm(pre, post, ev),
                },
                ViewState::SaveDialog(_, _) => Self::step_save_dialog(pre, post, fr, key),
                ViewState::PasteConfirmDialog(_, _) => match fr {
                    None => post == pre,
                    Some(ev) => Self::step_paste_confirm(pre, post, ev),
                },
            }
        }
    }

    /// Route one batch of abstract input events (and the raw key they came
    /// from) to the active modal.
    pub fn handle_key(&mut self, user_events: Vec<UserEvent>, key_event: KeyInput)
        requires
            old(self).wf(),
        ensures
            final(self).wf(),
            Self::step(*old(self), *final(self), user_events@, key_event),
    {
        let non_empty = self.non_empty();
        let fr = first_recognized_exec(&user_events, &self.view_state, non_empty);
        proof {
            lemma_first_recognized_sound(user_events@, self.view_state, non_empty);
        }
        match &self.view_state {
            ViewState::Default => {
                match fr {
                    None => {},
                    Some(ev) => match ev {
                        UserEvent::ObjectListSelect => {
                            self.pending_events.push(AppEventType::ObjectListMoveDown);
                        },
                        UserEvent::ObjectListBack => {
                            self.pending_events.push(AppEventType::ObjectListMoveUp);
                        },
                        UserEvent::ObjectListDown => {
                            self.select_next();
                        },
                        UserEvent::ObjectListUp => {
                            self.select_prev();
                        },
                        UserEvent::ObjectListGoToTop => {
                            self.select_first();
                        },
                        UserEvent::ObjectListGoToBottom => {
                            self.select_last();
                        },
                        UserEvent::ObjectListPageDown => {
                            self.select_next_page();
                        },
                        UserEvent::ObjectListPageUp => {
                            self.select_prev_page();
                        },
                        UserEvent::ObjectListRefresh => {
                            self.pending_events.push(AppEventType::ObjectListRefresh);
                        },
                        UserEvent::ObjectListBucketList => {
                            self.pending_events.push(AppEventType::BackToBucketList);
                        },
                        UserEvent::ObjectListManagementConsole => {
                            self.open_management_console();
                        },
                        UserEvent::ObjectListFilter => {
                            self.open_filter_dialog();
                        },
                        UserEvent::ObjectListSort => {
                            self.open_sort_dialog();
                        },
                        UserEvent::ObjectListGoToPath => {
                            self.open_go_to_path_dialog();
                        },
                        UserEvent::ObjectListCopyObject => {
                            let object_key = self.current_selected_object_key();
                            let object_item = copy_item(self.current_selected_item());
                            self.pending_events.push(
                                AppEventType::CopyObject(object_key, object_item),
                            );
                        },
                        UserEvent::ObjectListPasteObject => {
                            let dest_dir = copy_key(self.current_dir_object_key());
                            self.pending_events.push(AppEventType::StartPasteObject(dest_dir));
                        },
                        UserEvent::ObjectListCopyDetails => {
                            self.open_copy_detail_dialog();
                        },
                        UserEvent::ObjectListDownloadObject => {
                            self.start_download();
                        },
                        UserEvent::ObjectListDownloadObjectAs => {
                            self.start_download_as();
                        },
                        UserEvent::Help => {
                            self.pending_events.push(AppEventType::OpenHelp);
                        },
                        UserEvent::ObjectListResetFilter => {
                            self.reset_filter();
                        },
                        _ => {
                            proof {
                                assert(false);
                            }
                        },
                    },
                }
            },
            ViewState::FilterDialog => {
                match fr {
                    Some(UserEvent::InputDialogApply) => {
                        self.apply_filter();
                    },
                    Some(UserEvent::InputDialogClose) => {
                        self.close_filter_dialog();
                    },
                    Some(UserEvent::Help) => {
                        self.pending_events.push(AppEventType::OpenHelp);
                    },
                    None => {
                        self.filter_input_state.handle_key_event(key_event);
                        self.filter_view_indices();
                    },
                    _ => {
                        proof {
                            assert(false);
                        }
                    },
                }
            },
            ViewState::GoToPathDialog(_) => {
                match fr {
                    Some(UserEvent::InputDialogClose) => {
                        self.view_state = ViewState::Default;
                    },
                    Some(UserEvent::InputDialogApply) => {
                        let mut vs = ViewState::Default;
                        core::mem::swap(&mut vs, &mut self.view_state);
                        match vs {
                            ViewState::GoToPathDialog(st) => {
                                let entered = st.input();
                                let input = trim_str(entered.as_str());
                                let object_key = ObjectKey::with_prefix(
                                    self.object_key.bucket_name.clone(),
                                    input,
                                );
                                self.pending_events.push(AppEventType::GoToPath(object_key));
                            },
                            _ => {
                                proof {
                                    assert(false);
                                }
                            },
                        }
                    },
                    Some(UserEvent::Help) => {
                        self.pending_events.push(AppEventType::OpenHelp);
                    },
                    None => {
                        let mut vs = ViewState::Default;
                        core::mem::swap(&mut vs, &mut self.view_state);
                        match vs {
                            ViewState::GoToPathDialog(mut st) => {
                                st.handle_key_event(key_event);
                                self.view_state = ViewState::GoToPathDialog(st);
                            },
                            _ => {
                                proof {
                                    assert(false);
                                }
                            },
                        }
                    },
                    _ => {
                        proof {
                            assert(false);
                        }
                    },
                }
            },
            ViewState::SortDialog => {
                match fr {
                    Some(UserEvent::SelectDialogClose) => {
                        self.close_sort_dialog();
                    },
                    Some(UserEvent::SelectDialogDown) => {
                        self.select_next_sort_item();
                    },
                    Some(UserEvent::SelectDialogUp) => {
                        self.select_prev_sort_item();
                    },
                    Some(UserEvent::SelectDialogSelect) => {
                        self.apply_sort();
                    },
                    Some(UserEvent::Help) => {
                        self.pending_events.push(AppEventType::OpenHelp);
                    },
                    None => {},
                    _ => {
                        proof {
                            assert(false);
                        }
                    },
                }
            },
            ViewState::CopyDetailDialog(_) => {
                match fr {
                    Some(UserEvent::SelectDialogClose) => {
                        self.view_state = ViewState::Default;
                    },
                    Some(UserEvent::SelectDialogDown) => {
                        let mut vs = ViewState::Default;
                        core::mem::swap(&mut vs, &mut self.view_state);
                        match vs {
                            ViewState::CopyDetailDialog(mut st) => {
                                st.select_next();
                                self.view_state = ViewState::CopyDetailDialog(st);
                            },
                            _ => {
                                proof {
                                    assert(false);
                                }
                            },
                        }
                    },
                    Some(UserEvent::SelectDialogUp) => {
                        let mut vs = ViewState::Default;
                        core::mem::swap(&mut vs, &mut self.view_state);
                        match vs {
                            ViewState::CopyDetailDialog(mut st) => {
                                st.select_prev();
                                self.view_state = ViewState::CopyDetailDialog(st);
                            },
                            _ => {
                                proof {
                                    assert(false);
                                }
                            },
                        }
                    },
                    Some(UserEvent::SelectDialogSelect) => {
                        let mut vs = ViewState::Default;
                        core::mem::swap(&mut vs, &mut self.view_state);
                        match vs {
                            ViewState::CopyDetailDialog(st) => {
                                let pair = st.selected_name_and_value();
                                self.pending_events.push(
                                    AppEventType::CopyToClipboard(pair.0, pair.1),
                                );
                                self.view_state = ViewState::CopyDetailDialog(st);
                            },
                            _ => {
                                proof {
                                    assert(false);
                                }
                            },
                        }
                    },
                    Some(UserEvent::Help) => {
                        self.pending_events.push(AppEventType::OpenHelp);
                    },
                    None => {},
                    _ => {
                        proof {
                            assert(false);
                        }
                    },
                }
            },
            ViewState::DownloadConfirmDialog(_, _, _) => {
                match fr {
                    Some(UserEvent::SelectDialogClose) => {
                        self.close_download_confirm_dialog();
                    },
                    Some(UserEvent::SelectDialogLeft) | Some(UserEvent::SelectDialogRight) => {
                        let mut vs = ViewState::Default;
                        core::mem::swap(&mut vs, &mut self.view_state);
                        match vs {
                            ViewState::DownloadConfirmDialog(objs, mut st, da) => {
                                st.toggle();
                                self.view_state = ViewState::DownloadConfirmDialog(objs, st, da);
                            },
                            _ => {
                                proof {
                                    assert(false);
                                }
                            },
                        }
                    },
                    Some(UserEvent::SelectDialogSelect) => {
                        self.download();
                    },
                    Some(UserEvent::Help) => {
                        self.pending_events.push(AppEventType::OpenHelp);
                    },
                    None => {},
                    _ => {
                        proof {
                            assert(false);
                        }
                    },
                }
            },
            ViewState::SaveDialog(_, _) => {
                match fr {
                    Some(UserEvent::InputDialogClose) => {
                        self.close_save_dialog();
                    },
                    Some(UserEvent::InputDialogApply) => {
                        let input = match &self.view_state {
                            ViewState::SaveDialog(st, _) => st.input(),
                            _ => String::new(),
                        };
                        self.download_as(input);
                    },
                    Some(UserEvent::Help) => {
                        self.pending_events.push(AppEventType::OpenHelp);
                    },
                    None => {
                        let mut vs = ViewState::Default;
                        core::mem::swap(&mut vs, &mut self.view_state);
                        match vs {
                            ViewState::SaveDialog(mut st, objs) => {
                                st.handle_key_event(key_event);
                                self.view_state = ViewState::SaveDialog(st, objs);
                            },
                            _ => {
                                proof {
                                    assert(false);
                                }
                            },
                        }
                    },
                    _ => {
                        proof {
                            assert(false);
                        }
                    },
                }
            },
            ViewState::PasteConfirmDialog(_, _) => {
                match fr {
                    Some(UserEvent::SelectDialogClose) => {
                        self.close_paste_confirm_dialog();
                    },
                    Some(UserEvent::SelectDialogLeft) | Some(UserEvent::SelectDialogRight) => {
                        let mut vs = ViewState::Default;
                        core::mem::swap(&mut vs, &mut self.view_state);
                        match vs {
                            ViewState::PasteConfirmDialog(ps, mut st) => {
                                st.toggle();
                                self.view_state = ViewState::PasteConfirmDialog(ps, st);
                            },
                            _ => {
                                proof {
                                    assert(false);
                                }
                            },
                        }
                    },
                    Some(UserEvent::SelectDialogSelect) => {
                        self.paste();
                    },
                    Some(UserEvent::Help) => {
                        self.pending_events.push(AppEventType::OpenHelp);
                    },
                    None => {},
                    _ => {
                        proof {
                            assert(false);
                        }
                    },
                }
            },
        }
    }
}

/// The help rows of the default view; a loaded filter adds the row that
/// clears it.
pub open spec fn default_helps_table(filter_empty: bool) -> Seq<(UserEvent, Seq<char>)> {
    if filter_empty {
        seq![
            (UserEvent::Quit, "Quit app"@),
            (UserEvent::ObjectListDown, "Select next item"@),
            (UserEvent::ObjectListUp, "Select previous item"@),
            (UserEvent::ObjectListGoToTop, "Go to top"@),
            (UserEvent::ObjectListGoToBottom, "Go to bottom"@),
            (UserEvent::ObjectListPageDown, "Scroll page forward"@),
            (UserEvent::ObjectListPageUp, "Scroll page backward"@),
            (UserEvent::ObjectListSelect, "Open file or folder"@),
            (UserEvent::ObjectListBack, "Go back to prev folder"@),
            (UserEvent::ObjectListBucketList, "Go back to bucket list"@),
            (UserEvent::ObjectListFilter, "Filter object list"@),
            (UserEvent::ObjectListGoToPath, "Go to path"@),
            (UserEvent::ObjectListDownloadObject, "Download object"@),
            (UserEvent::ObjectListDownloadObjectAs, "Download object as"@),
            (UserEvent::ObjectListSort, "Sort object list"@),
            (UserEvent::ObjectListCopyObject, "Copy selection"@),
            (UserEvent::ObjectListPasteObject, "Paste to current dir"@),
            (UserEvent::ObjectListCopyDetails, "Open copy dialog"@),
            (UserEvent::ObjectListRefresh, "Refresh object list"@),
            (UserEvent::ObjectListManagementConsole, "Open management console in browser"@),
        ]
    } else {
        seq![
            (UserEvent::Quit, "Quit app"@),
            (UserEvent::ObjectListResetFilter, "Clear filter"@),
            (UserEvent::ObjectListDown, "Select next item"@),
            (UserEvent::ObjectListUp, "Select previous item"@),
            (UserEvent::ObjectListGoToTop, "Go to top"@),
            (UserEvent::ObjectListGoToBottom, "Go to bottom"@),
            (UserEvent::ObjectListPageDown, "Scroll page forward"@),
            (UserEvent::ObjectListPageUp, "Scroll page backward"@),
            (UserEvent::ObjectListSelect, "Open file or folder"@),
            (UserEvent::ObjectListBack, "Go back to prev folder"@),
            (UserEvent::ObjectListBucketList, "Go back to bucket list"@),
            (UserEvent::ObjectListFilter, "Filter object list"@),
            (UserEvent::ObjectListGoToPath, "Go to path"@),
            (UserEvent::ObjectListDownloadObject, "Download object"@),
            (UserEvent::ObjectListDownloadObjectAs, "Download object as"@),
            (UserEvent::ObjectListSort, "Sort object list"@),
            (UserEvent::ObjectListCopyObject, "Copy selection"@),
            (UserEvent::ObjectListPasteObject, "Paste to current dir"@),
            (UserEvent::ObjectListCopyDetails, "Open copy dialog"@),
            (UserEvent::ObjectListRefresh, "Refresh object list"@),
            (UserEvent::ObjectListManagementConsole, "Open management console in browser"@),
        ]
    }
}

/// The help rows shown for each modal.
pub open spec fn helps_table(vs: ViewState, filter_empty: bool) -> Seq<(UserEvent, Seq<char>)> {
    match vs {
        ViewState::Default => default_helps_table(filter_empty),
        ViewState::GoToPathDialog(_) => seq![
            (UserEvent::Quit, "Quit app"@),
            (UserEvent::InputDialogClose, "Close go to path"@),
            (UserEvent::InputDialogApply, "Go to path"@),
        ],
        ViewState::FilterDialog => seq![
            (UserEvent::Quit, "Quit app"@),
            (UserEvent::InputDialogClose, "Close filter dialog"@),
            (UserEvent::InputDialogApply, "Apply filter"@),
        ],
        ViewState::SortDialog => seq![
            (UserEvent::Quit, "Quit app"@),
            (UserEvent::SelectDialogClose, "Close sort dialog"@),
            (UserEvent::SelectDialogDown, "Select next item"@),
            (UserEvent::SelectDialogUp, "Select previous item"@),
            (UserEvent::SelectDialogSelect, "Apply sort"@),
        ],
        ViewState::CopyDetailDialog(_) => seq![
            (UserEvent::Quit, "Quit app"@),
            (UserEvent::SelectDialogClose, "Close copy dialog"@),
            (UserEvent::SelectDialogDown, "Select next item"@),
            (UserEvent::SelectDialogUp, "Select previous item"@),
            (UserEvent::SelectDialogSelect, "Copy selected value to clipboard"@),
        ],
        ViewState::DownloadConfirmDialog(_, _, _) => seq![
            (UserEvent::Quit, "Quit app"@),
            (UserEvent::SelectDialogClose, "Close confirm dialog"@),
            (UserEvent::SelectDialogRight, "Select next"@),
            (UserEvent::SelectDialogLeft, "Select previous"@),
            (UserEvent::SelectDialogSelect, "Confirm"@),
        ],
        ViewState::PasteConfirmDialog(_, _) => seq![
            (UserEvent::Quit, "Quit app"@),
            (UserEvent::SelectDialogClose, "Close confirm dialog"@),
            (UserEvent::SelectDialogRight, "Select next"@),
            (UserEvent::SelectDialogLeft, "Select previous"@),
            (UserEvent::SelectDialogSelect, "Confirm"@),
        ],
        ViewState::SaveDialog(_, _) => seq![
            (UserEvent::Quit, "Quit app"@),
            (UserEvent::InputDialogClose, "Close save dialog"@),
            (UserEvent::InputDialogApply, "Download object"@),
        ],
    }
}

/// The status-bar rows shown for each modal: events sharing a description
/// plus the priority that decides what narrow screens drop.
pub open spec fn short_helps_table(vs: ViewState, filter_empty: bool) -> Seq<
    (Seq<UserEvent>, Seq<char>, int),
> {
    match vs {
        ViewState::Default => {
            let head: (Seq<UserEvent>, Seq<char>, int) = if filter_empty {
                (seq![UserEvent::Quit], "Quit"@, 0)
            } else {
                (seq![UserEvent::ObjectListResetFilter], "Clear filter"@, 0)
            };
            seq![
                head,
                (seq![UserEvent::ObjectListDown, UserEvent::ObjectListUp], "Select"@, 3),
                (
                    seq![UserEvent::ObjectListGoToTop, UserEvent::ObjectListGoToBottom],
                    "Top/Bottom"@,
                    8,
                ),
                (seq![UserEvent::ObjectListSelect], "Open"@, 1),
                (seq![UserEvent::ObjectListBack], "Go back"@, 2),
                (seq![UserEvent::ObjectListFilter], "Filter"@, 4),
                (
                    seq![
                        UserEvent::ObjectListDownloadObject,
                        UserEvent::ObjectListDownloadObjectAs,
                    ],
                    "Download"@,
                    5,
                ),
                (seq![UserEvent::ObjectListSort], "Sort"@, 6),
                (seq![UserEvent::ObjectListCopyObject], "Copy"@, 7),
                (seq![UserEvent::ObjectListPasteObject], "Paste"@, 9),
                (seq![UserEvent::ObjectListRefresh], "Refresh"@, 10),
                (seq![UserEvent::Help], "Help"@, 0),
            ]
        },
        ViewState::GoToPathDialog(_) => seq![
            (seq![UserEvent::InputDialogClose], "Close"@, 2),
            (seq![UserEvent::InputDialogApply], "Go"@, 1),
            (seq![UserEvent::Help], "Help"@, 0),
        ],
        ViewState::FilterDialog => seq![
            (seq![UserEvent::InputDialogClose], "Close"@, 2),
            (seq![UserEvent::InputDialogApply], "Filter"@, 1),
            (seq![UserEvent::Help], "Help"@, 0),
        ],
        ViewState::SortDialog => seq![
            (seq![UserEvent::SelectDialogClose], "Close"@, 2),
            (seq![UserEvent::SelectDialogDown, UserEvent::SelectDialogUp], "Select"@, 3),
            (seq![UserEvent::SelectDialogSelect], "Sort"@, 1),
            (seq![UserEvent::Help], "Help"@, 0),
        ],
        ViewState::CopyDetailDialog(_) => seq![
            (seq![UserEvent::SelectDialogClose], "Close"@, 2),
            (seq![UserEvent::SelectDialogDown, UserEvent::SelectDialogUp], "Select"@, 3),
            (seq![UserEvent::SelectDialogSelect], "Copy"@, 1),
            (seq![UserEvent::Help], "Help"@, 0),
        ],
        ViewState::DownloadConfirmDialog(_, _, _) => seq![
            (seq![UserEvent::SelectDialogClose], "Close"@, 2),
            (seq![UserEvent::SelectDialogLeft, UserEvent::SelectDialogRight], "Select"@, 3),
            (seq![UserEvent::SelectDialogSelect], "Confirm"@, 1),
            (seq![UserEvent::Help], "Help"@, 0),
        ],
        ViewState::PasteConfirmDialog(_, _) => seq![
            (seq![UserEvent::SelectDialogClose], "Close"@, 2),
            (seq![UserEvent::SelectDialogLeft, UserEvent::SelectDialogRight], "Select"@, 3),
            (seq![UserEvent::SelectDialogSelect], "Confirm"@, 1),
            (seq![UserEvent::Help], "Help"@, 0),
        ],
        ViewState::SaveDialog(_, _) => seq![
            (seq![UserEvent::InputDialogClose], "Close"@, 2),
            (seq![UserEvent::InputDialogApply], "Download"@, 1),
            (seq![UserEvent::Help], "Help"@, 0),
        ],
    }
}

/// The events the active modal reacts to. A guard of `non_empty` marks the
/// list actions that are meaningful only with something to select.
pub open spec fn recognized_in(vs: ViewState, ev: UserEvent, non_empty: bool) -> bool {
    match vs {
        ViewState::Default => match ev {
            UserEvent::ObjectListSelect => non_empty,
            UserEvent::ObjectListBack => true,
            UserEvent::ObjectListDown => non_empty,
            UserEvent::ObjectListUp => non_empty,
            UserEvent::ObjectListGoToTop => non_empty,
            UserEvent::ObjectListGoToBottom => non_empty,
            UserEvent::ObjectListPageDown => non_empty,
            UserEvent::ObjectListPageUp => non_empty,
            UserEvent::ObjectListRefresh => non_empty,
            UserEvent::ObjectListBucketList => true,
            UserEvent::ObjectListManagementConsole => non_empty,
            UserEvent::ObjectListFilter => true,
            UserEvent::ObjectListSort => true,
            UserEvent::ObjectListGoToPath => true,
            UserEvent::ObjectListCopyObject => non_empty,
            UserEvent::ObjectListPasteObject => true,
            UserEvent::ObjectListCopyDetails => non_empty,
            UserEvent::ObjectListDownloadObject => non_empty,
            UserEvent::ObjectListDownloadObjectAs => non_empty,
            UserEvent::Help => true,
            UserEvent::ObjectListResetFilter => true,
            _ => false,
        },
        ViewState::FilterDialog | ViewState::GoToPathDialog(_) | ViewState::SaveDialog(_, _) => {
            match ev {
                UserEvent::InputDialogClose => true,
                UserEvent::InputDialogApply => true,
                UserEvent::Help => true,
                _ => false,
            }
        },
        ViewState::SortDialog | ViewState::CopyDetailDialog(_) => match ev {
            UserEvent::SelectDialogClose => true,
            UserEvent::SelectDialogDown => true,
            UserEvent::SelectDialogUp => true,
            UserEvent::SelectDialogSelect => true,
            UserEvent::Help => true,
            _ => false,
        },
        ViewState::DownloadConfirmDialog(_, _, _) | ViewState::PasteConfirmDialog(_, _) => {
            match ev {
                UserEvent::SelectDialogClose => true,
                UserEvent::SelectDialogLeft => true,
                UserEvent::SelectDialogRight => true,
                UserEvent::SelectDialogSelect => true,
                UserEvent::Help => true,
                _ => false,
            }
        },
    }
}

/// The first event of the batch the active modal recognizes.
pub open spec fn first_recognized(
    events: Seq<UserEvent>,
    vs: ViewState,
    non_empty: bool,
) -> Option<UserEvent>
    decreases events.len(),
{
    if events.len() == 0 {
        None
    } else if recognized_in(vs, events[0], non_empty) {
        Some(events[0])
    } else {
        first_recognized(events.drop_first(), vs, non_empty)
    }
}

proof fn lemma_first_recognized_sound(events: Seq<UserEvent>, vs: ViewState, ne: bool)
    ensures
        first_recognized(events, vs, ne) matches Some(ev) ==> recognized_in(vs, ev, ne),
    decreases events.len(),
{
    if events.len() > 0 && !recognized_in(vs, events[0], ne) {
        lemma_first_recognized_sound(events.drop_first(), vs, ne);
    }
}

fn recognized_exec(vs: &ViewState, ev: UserEvent, non_empty: bool) -> (r: bool)
    ensures
        r == recognized_in(*vs, ev, non_empty),
{
    match vs {
        ViewState::Default => match ev {
            UserEvent::ObjectListSelect => non_empty,
            UserEvent::ObjectListBack => true,
            UserEvent::ObjectListDown => non_empty,
            UserEvent::ObjectListUp => non_empty,
            UserEvent::ObjectListGoToTop => non_empty,
            UserEvent::ObjectListGoToBottom => non_empty,
            UserEvent::ObjectListPageDown => non_empty,
            UserEvent::ObjectListPageUp => non_empty,
            UserEvent::ObjectListRefresh => non_empty,
            UserEvent::ObjectListBucketList => true,
            UserEvent::ObjectListManagementConsole => non_empty,
            UserEvent::ObjectListFilter => true,
            UserEvent::ObjectListSort => true,
            UserEvent::ObjectListGoToPath => true,
            UserEvent::ObjectListCopyObject => non_empty,
            UserEvent::ObjectListPasteObject => true,
            UserEvent::ObjectListCopyDetails => non_empty,
            UserEvent::ObjectListDownloadObject => non_empty,
            UserEvent::ObjectListDownloadObjectAs => non_empty,
            UserEvent::Help => true,
            UserEvent::ObjectListResetFilter => true,
            _ => false,
        },
        ViewState::FilterDialog | ViewState::GoToPathDialog(_) | ViewState::SaveDialog(_, _) => {
            match ev {
                UserEvent::InputDialogClose => true,
                UserEvent::InputDialogApply => true,
                UserEvent::Help => true,
                _ => false,
            }
        },
        ViewState::SortDialog | ViewState::CopyDetailDialog(_) => match ev {
            UserEvent::SelectDialogClose => true,
            UserEvent::SelectDialogDown => true,
            UserEvent::SelectDialogUp => true,
            UserEvent::SelectDialogSelect => true,
            UserEvent::Help => true,
            _ => false,
        },
        ViewState::DownloadConfirmDialog(_, _, _) | ViewState::PasteConfirmDialog(_, _) => {
            match ev {
                UserEvent::SelectDialogClose => true,
                UserEvent::SelectDialogLeft => true,
                UserEvent::SelectDialogRight => true,
                UserEvent::SelectDialogSelect => true,
                UserEvent::Help => true,
                _ => false,
            }
        },
    }
}

fn first_recognized_exec(events: &Vec<UserEvent>, vs: &ViewState, non_empty: bool) -> (r: Option<
    UserEvent,
>)
    ensures
        r == first_recognized(events@, *vs, non_empty),
{
    let mut i: usize = 0;
    proof {
        assert(events@.skip(0) =~= events@);
    }
    while i < events.len()
        invariant
            i <= events@.len(),
            first_recognized(events@, *vs, non_empty) == first_recognized(
                events@.skip(i as int),
                *vs,
                non_empty,
            ),
        decreases events@.len() - i,
    {
        let ev = events[i];
        proof {
            assert(events@.skip(i as int)[0] == events@[i as int]);
            assert(events@.skip(i as int).drop_first() =~= events@.skip(i + 1));
        }
        if recognized_exec(vs, ev, non_empty) {
            return Some(ev);
        }
        i = i + 1;
    }
    proof {
        assert(events@.skip(i as int).len() == 0);
    }
    None
}

/// The dialog-local text input of the active modal.
pub open spec fn input_dialog_of(vs: ViewState) -> InputDialogState {
    match vs {
        ViewState::GoToPathDialog(st) => st,
        ViewState::SaveDialog(st, _) => st,
        _ => arbitrary(),
    }
}

/// The copy-detail picker of the active modal.
pub open spec fn copy_detail_of(vs: ViewState) -> CopyDetailDialogState {
    match vs {
        ViewState::CopyDetailDialog(st) => st,
        _ => arbitrary(),
    }
}

/// The ok/cancel toggle of the active confirm dialog.
pub open spec fn confirm_toggle_of(vs: ViewState) -> ConfirmDialogState {
    match vs {
        ViewState::DownloadConfirmDialog(_, st, _) => st,
        ViewState::PasteConfirmDialog(_, st) => st,
        _ => arbitrary(),
    }
}

/// The rename flag of the active download-confirm dialog.
pub open spec fn confirm_download_as_of(vs: ViewState) -> bool {
    match vs {
        ViewState::DownloadConfirmDialog(_, _, da) => da,
        _ => arbitrary(),
    }
}

/// The pending copy request of the active paste-confirm dialog.
pub open spec fn paste_spec_of(vs: ViewState) -> PasteSpec {
    match vs {
        ViewState::PasteConfirmDialog(ps, _) => ps,
        _ => arbitrary(),
    }
}

fn two_events(a: UserEvent, b: UserEvent) -> (r: Vec<UserEvent>)
    ensures
        r@ == seq![a, b],
{
    let mut r: Vec<UserEvent> = Vec::new();
    r.push(a);
    r.push(b);
    proof {
        assert(r@ =~= seq![a, b]);
    }
    r
}

impl ObjectListPage {
    /// The rows of the full help page for the active modal.
    #[verifier::rlimit(100)]
    pub fn helps(&self) -> (r: Vec<BuildHelpsItem>)
        ensures
            r@.len() == helps_table(self.view_state, self.filter_text().len() == 0).len(),
            forall|i: int|
                0 <= i < r@.len() ==> (#[trigger] r@[i]).event == helps_table(
                    self.view_state,
                    self.filter_text().len() == 0,
                )[i].0 && r@[i].description@ == helps_table(
                    self.view_state,
                    self.filter_text().len() == 0,
                )[i].1,
    {
        let filter_empty = self.filter_input_state.is_empty();
        let mut r: Vec<BuildHelpsItem> = Vec::new();
        match &self.view_state {
            ViewState::Default => {
                r.push(BuildHelpsItem::new(UserEvent::Quit, "Quit app"));
                if !filter_empty {
                    r.push(BuildHelpsItem::new(UserEvent::ObjectListResetFilter, "Clear filter"));
                }
                r.push(BuildHelpsItem::new(UserEvent::ObjectListDown, "Select next item"));
                r.push(BuildHelpsItem::new(UserEvent::ObjectListUp, "Select previous item"));
                r.push(BuildHelpsItem::new(UserEvent::ObjectListGoToTop, "Go to top"));
                r.push(BuildHelpsItem::new(UserEvent::ObjectListGoToBottom, "Go to bottom"));
                r.push(BuildHelpsItem::new(UserEvent::ObjectListPageDown, "Scroll page forward"));
                r.push(BuildHelpsItem::new(UserEvent::ObjectListPageUp, "Scroll page backward"));
                r.push(BuildHelpsItem::new(UserEvent::ObjectListSelect, "Open file or folder"));
                r.push(BuildHelpsItem::new(UserEvent::ObjectListBack, "Go back to prev folder"));
                r.push(
                    BuildHelpsItem::new(UserEvent::ObjectListBucketList, "Go back to bucket list"),
                );
                r.push(BuildHelpsItem::new(UserEvent::ObjectListFilter, "Filter object list"));
                r.push(BuildHelpsItem::new(UserEvent::ObjectListGoToPath, "Go to path"));
                r.push(
                    BuildHelpsItem::new(UserEvent::ObjectListDownloadObject, "Download object"),
                );
                r.push(
                    BuildHelpsItem::new(
                        UserEvent::ObjectListDownloadObjectAs,
                        "Download object as",
                    ),
                );
                r.push(BuildHelpsItem::new(UserEvent::ObjectListSort, "Sort object list"));
                r.push(BuildHelpsItem::new(UserEvent::ObjectListCopyObject, "Copy selection"));
                r.push(
                    BuildHelpsItem::new(UserEvent::ObjectListPasteObject, "Paste to current dir"),
                );
                r.push(BuildHelpsItem::new(UserEvent::ObjectListCopyDetails, "Open copy dialog"));
                r.push(BuildHelpsItem::new(UserEvent::ObjectListRefresh, "Refresh object list"));
                r.push(
                    BuildHelpsItem::new(
                        UserEvent::ObjectListManagementConsole,
                        "Open management console in browser",
                    ),
                );
            },
            ViewState::GoToPathDialog(_) => {
                r.push(BuildHelpsItem::new(UserEvent::Quit, "Quit app"));
                r.push(BuildHelpsItem::new(UserEvent::InputDialogClose, "Close go to path"));
                r.push(BuildHelpsItem::new(UserEvent::InputDialogApply, "Go to path"));
            },
            ViewState::FilterDialog => {
                r.push(BuildHelpsItem::new(UserEvent::Quit, "Quit app"));
                r.push(BuildHelpsItem::new(UserEvent::InputDialogClose, "Close filter dialog"));
                r.push(BuildHelpsItem::new(UserEvent::InputDialogApply, "Apply filter"));
            },
            ViewState::SortDialog => {
                r.push(BuildHelpsItem::new(UserEvent::Quit, "Quit app"));
                r.push(BuildHelpsItem::new(UserEvent::SelectDialogClose, "Close sort dialog"));
                r.push(BuildHelpsItem::new(UserEvent::SelectDialogDown, "Select next item"));
                r.push(BuildHelpsItem::new(UserEvent::SelectDialogUp, "Select previous item"));
                r.push(BuildHelpsItem::new(UserEvent::SelectDialogSelect, "Apply sort"));
            },
            ViewState::CopyDetailDialog(_) => {
                r.push(BuildHelpsItem::new(UserEvent::Quit, "Quit app"));
                r.push(BuildHelpsItem::new(UserEvent::SelectDialogClose, "Close copy dialog"));
                r.push(BuildHelpsItem::new(UserEvent::SelectDialogDown, "Select next item"));
                r.push(BuildHelpsItem::new(UserEvent::SelectDialogUp, "Select previous item"));
                r.push(
                    BuildHelpsItem::new(
                        UserEvent::SelectDialogSelect,
                        "Copy selected value to clipboard",
                    ),
                );
            },
            ViewState::DownloadConfirmDialog(_, _, _) => {
                r.push(BuildHelpsItem::new(UserEvent::Quit, "Quit app"));
                r.push(BuildHelpsItem::new(UserEvent::SelectDialogClose, "Close confirm dialog"));
                r.push(BuildHelpsItem::new(UserEvent::SelectDialogRight, "Select next"));
                r.push(BuildHelpsItem::new(UserEvent::SelectDialogLeft, "Select previous"));
                r.push(BuildHelpsItem::new(UserEvent::SelectDialogSelect, "Confirm"));
            },
            ViewState::PasteConfirmDialog(_, _) => {
                r.push(BuildHelpsItem::new(UserEvent::Quit, "Quit app"));
                r.push(BuildHelpsItem::new(UserEvent::SelectDialogClose, "Close confirm dialog"));
                r.push(BuildHelpsItem::new(UserEvent::SelectDialogRight, "Select next"));
                r.push(BuildHelpsItem::new(UserEvent::SelectDialogLeft, "Select previous"));
                r.push(BuildHelpsItem::new(UserEvent::SelectDialogSelect, "Confirm"));
            },
            ViewState::SaveDialog(_, _) => {
                r.push(BuildHelpsItem::new(UserEvent::Quit, "Quit app"));
                r.push(BuildHelpsItem::new(UserEvent::InputDialogClose, "Close save dialog"));
                r.push(BuildHelpsItem::new(UserEvent::InputDialogApply, "Download object"));
            },
        }
        r
    }

    /// The status-bar short help entries for the active modal.
    #[verifier::rlimit(100)]
    pub fn short_helps(&self) -> (r: Vec<BuildShortHelpsItem>)
        ensures
            r@.len() == short_helps_table(self.view_state, self.filter_text().len() == 0).len(),
            forall|i: int|
                0 <= i < r@.len() ==> (#[trigger] r@[i]).events@ == short_helps_table(
                    self.view_state,
                    self.filter_text().len() == 0,
                )[i].0 && r@[i].description@ == short_helps_table(
                    self.view_state,
                    self.filter_text().len() == 0,
                )[i].1 && r@[i].priority == short_helps_table(
                    self.view_state,
                    self.filter_text().len() == 0,
                )[i].2,
    {
        let filter_empty = self.filter_input_state.is_empty();
        let mut r: Vec<BuildShortHelpsItem> = Vec::new();
        match &self.view_state {
            ViewState::Default => {
                if filter_empty {
                    r.push(BuildShortHelpsItem::single(UserEvent::Quit, "Quit", 0));
                } else {
                    r.push(
                        BuildShortHelpsItem::single(
                            UserEvent::ObjectListResetFilter,
                            "Clear filter",
                            0,
                        ),
                    );
                }
                r.push(
                    BuildShortHelpsItem::group(
                        two_events(UserEvent::ObjectListDown, UserEvent::ObjectListUp),
                        "Select",
                        3,
                    ),
                );
                r.push(
                    BuildShortHelpsItem::group(
                        two_events(UserEvent::ObjectListGoToTop, UserEvent::ObjectListGoToBottom),
                        "Top/Bottom",
                        8,
                    ),
                );
                r.push(BuildShortHelpsItem::single(UserEvent::ObjectListSelect, "Open", 1));
                r.push(BuildShortHelpsItem::single(UserEvent::ObjectListBack, "Go back", 2));
                r.push(BuildShortHelpsItem::single(UserEvent::ObjectListFilter, "Filter", 4));
                r.push(
                    BuildShortHelpsItem::group(
                        two_events(
                            UserEvent::ObjectListDownloadObject,
                            UserEvent::ObjectListDownloadObjectAs,
                        ),
                        "Download",
                        5,
                    ),
                );
                r.push(BuildShortHelpsItem::single(UserEvent::ObjectListSort, "Sort", 6));
                r.push(BuildShortHelpsItem::single(UserEvent::ObjectListCopyObject, "Copy", 7));
                r.push(BuildShortHelpsItem::single(UserEvent::ObjectListPasteObject, "Paste", 9));
                r.push(BuildShortHelpsItem::single(UserEvent::ObjectListRefresh, "Refresh", 10));
                r.push(BuildShortHelpsItem::single(UserEvent::Help, "Help", 0));
            },
            ViewState::GoToPathDialog(_) => {
                r.push(BuildShortHelpsItem::single(UserEvent::InputDialogClose, "Close", 2));
                r.push(BuildShortHelpsItem::single(UserEvent::InputDialogApply, "Go", 1));
                r.push(BuildShortHelpsItem::single(UserEvent::Help, "Help", 0));
            },
            ViewState::FilterDialog => {
                r.push(BuildShortHelpsItem::single(UserEvent::InputDialogClose, "Close", 2));
                r.push(BuildShortHelpsItem::single(UserEvent::InputDialogApply, "Filter", 1));
                r.push(BuildShortHelpsItem::single(UserEvent::Help, "Help", 0));
            },
            ViewState::SortDialog => {
                r.push(BuildShortHelpsItem::single(UserEvent::SelectDialogClose, "Close", 2));
                r.push(
                    BuildShortHelpsItem::group(
                        two_events(UserEvent::SelectDialogDown, UserEvent::SelectDialogUp),
                        "Select",
                        3,
                    ),
                );
                r.push(BuildShortHelpsItem::single(UserEvent::SelectDialogSelect, "Sort", 1));
                r.push(BuildShortHelpsItem::single(UserEvent::Help, "Help", 0));
            },
            ViewState::CopyDetailDialog(_) => {
                r.push(BuildShortHelpsItem::single(UserEvent::SelectDialogClose, "Close", 2));
                r.push(
                    BuildShortHelpsItem::group(
                        two_events(UserEvent::SelectDialogDown, UserEvent::SelectDialogUp),
                        "Select",
                        3,
                    ),
                );
                r.push(BuildShortHelpsItem::single(UserEvent::SelectDialogSelect, "Copy", 1));
                r.push(BuildShortHelpsItem::single(UserEvent::Help, "Help", 0));
            },
            ViewState::DownloadConfirmDialog(_, _, _) => {
                r.push(BuildShortHelpsItem::single(UserEvent::SelectDialogClose, "Close", 2));
                r.push(
                    BuildShortHelpsItem::group(
                        two_events(UserEvent::SelectDialogLeft, UserEvent::SelectDialogRight),
                        "Select",
                        3,
                    ),
                );
                r.push(BuildShortHelpsItem::single(UserEvent::SelectDialogSelect, "Confirm", 1));
                r.push(BuildShortHelpsItem::single(UserEvent::Help, "Help", 0));
            },
            ViewState::PasteConfirmDialog(_, _) => {
                r.push(BuildShortHelpsItem::single(UserEvent::SelectDialogClose, "Close", 2));
                r.push(
                    BuildShortHelpsItem::group(
                        two_events(UserEvent::SelectDialogLeft, UserEvent::SelectDialogRight),
                        "Select",
                        3,
                    ),
                );
                r.push(BuildShortHelpsItem::single(UserEvent::SelectDialogSelect, "Confirm", 1));
                r.push(BuildShortHelpsItem::single(UserEvent::Help, "Help", 0));
            },
            ViewState::SaveDialog(_, _) => {
                r.push(BuildShortHelpsItem::single(UserEvent::InputDialogClose, "Close", 2));
                r.push(BuildShortHelpsItem::single(UserEvent::InputDialogApply, "Download", 1));
                r.push(BuildShortHelpsItem::single(UserEvent::Help, "Help", 0));
            },
        }
        r
    }
}

/// Law: the projection and the filter agree exactly. Every projected row's
/// name contains the filter text; no master index appears twice; and every
/// matching master index is in the projection.
pub proof fn lemma_projection_matches_filter(page: ObjectListPage)
    requires
        page.wf(),
        page.items().len() <= usize::MAX,
    ensures
        forall|k: int|
            0 <= k < page.proj().len() ==> crate::text::seq_contains_sub(
                item_name(page.items()[(#[trigger] page.proj()[k]) as int]),
                page.filter_text(),
            ),
        page.proj().no_duplicates(),
        forall|j: usize|
            j < page.items().len() && crate::text::seq_contains_sub(
                item_name(page.items()[j as int]),
                page.filter_text(),
            ) ==> page.proj().contains(j),
{
    broadcast use vstd::seq_lib::group_to_multiset_ensures;

    let items = page.items();
    let f = page.filter_text();
    let n = items.len() as int;
    let fi = filter_indices(items, f, n);
    lemma_filter_indices_props(items, f, n);
    lemma_ascending_no_duplicates(fi);
    fi.lemma_multiset_has_no_duplicates();
    assert forall|k: int|
        0 <= k < page.proj().len() implies crate::text::seq_contains_sub(
        item_name(page.items()[(#[trigger] page.proj()[k]) as int]),
        page.filter_text(),
    ) by {
        let v = page.proj()[k];
        assert(page.proj().contains(v));
        assert(page.proj().to_multiset().count(v) > 0);
        assert(fi.to_multiset().count(v) > 0);
        assert(fi.contains(v));
        let m = choose|m: int| 0 <= m < fi.len() && fi[m] == v;
        assert(filter_matches(items, f, fi[m] as int));
    }
    page.proj().lemma_multiset_has_no_duplicates_conv();
    assert forall|j: usize|
        j < page.items().len() && crate::text::seq_contains_sub(
            item_name(page.items()[j as int]),
            page.filter_text(),
        ) implies page.proj().contains(j) by {
        assert(filter_matches(items, f, j as int));
        assert(fi.contains(j));
        assert(fi.to_multiset().count(j) > 0);
        assert(page.proj().to_multiset().count(j) > 0);
    }
}

/// The empty filter keeps every index: the identity projection.
proof fn lemma_filter_empty_identity(items: Seq<ObjectItem>, f: Seq<char>, n: int)
    requires
        0 <= n <= usize::MAX,
        f.len() == 0,
    ensures
        filter_indices(items, f, n).len() == n,
        forall|k: int| 0 <= k < n ==> (#[trigger] filter_indices(items, f, n)[k]) == k,
    decreases n,
{
    if n > 0 {
        lemma_filter_empty_identity(items, f, n - 1);
        assert(item_name(items[n - 1]).subrange(0, 0 + f.len() as int) =~= f);
        assert(filter_matches(items, f, n - 1));
        let rest = filter_indices(items, f, n - 1);
        let cur = filter_indices(items, f, n);
        assert(cur == rest.push((n - 1) as usize));
        assert forall|k: int| 0 <= k < n implies (#[trigger] cur[k]) == k by {
            if k < n - 1 {
                assert(cur[k] == rest[k]);
            } else {
                assert(cur[k] == (n - 1) as usize);
            }
        }
    }
}

/// A permutation of in-range indices is in range.
proof fn lemma_proj_in_range(a: Seq<usize>, b: Seq<usize>, n: int)
    requires
        a.to_multiset() == b.to_multiset(),
        forall|k: int| 0 <= k < b.len() ==> (#[trigger] b[k]) < n,
    ensures
        forall|k: int| 0 <= k < a.len() ==> (#[trigger] a[k]) < n,
{
    broadcast use vstd::seq_lib::group_to_multiset_ensures;

    assert forall|k: int| 0 <= k < a.len() implies (#[trigger] a[k]) < n by {
        assert(a.contains(a[k]));
        assert(a.to_multiset().count(a[k]) > 0);
        assert(b.to_multiset().count(a[k]) > 0);
        assert(b.contains(a[k]));
        let j = choose|j: int| 0 <= j < b.len() && b[j] == a[k];
        assert(b[j] < n);
    }
}

} // verus!
