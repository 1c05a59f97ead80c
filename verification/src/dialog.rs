//! Dialog-local state: the ok/cancel toggle of a confirm dialog, the sort
//! picker, and the copy-detail picker.

use vstd::prelude::*;

use crate::item::{ObjectItem};
use crate::sort::ObjectListSortType;

verus! {

/// The two-button toggle of a confirm dialog; it opens on the safe side, with
/// "cancel" selected.
#[derive(Clone, Copy, Debug, PartialEq, Eq, Structural)]
pub struct ConfirmDialogState {
    pub selected_ok: bool,
}

impl Default for ConfirmDialogState {
    fn default() -> (r: Self)
        ensures
            !r.selected_ok,
    {
        ConfirmDialogState { selected_ok: false }
    }
}

impl ConfirmDialogState {
    pub fn toggle(&mut self)
        ensures
            final(self).selected_ok == !old(self).selected_ok,
    {
        self.selected_ok = !self.selected_ok;
    }

    pub fn is_ok(&self) -> (r: bool)
        ensures
            r == self.selected_ok,
    {
        self.selected_ok
    }
}

/// The sort type following `t` in the picker, clamped at the bottom.
pub open spec fn next_sort_type(t: ObjectListSortType) -> ObjectListSortType {
    match t {
        ObjectListSortType::Default => ObjectListSortType::NameAsc,
        ObjectListSortType::NameAsc => ObjectListSortType::NameDesc,
        ObjectListSortType::NameDesc => ObjectListSortType::LastModifiedAsc,
        ObjectListSortType::LastModifiedAsc => ObjectListSortType::LastModifiedDesc,
        ObjectListSortType::LastModifiedDesc => ObjectListSortType::SizeAsc,
        ObjectListSortType::SizeAsc => ObjectListSortType::SizeDesc,
        ObjectListSortType::SizeDesc => ObjectListSortType::SizeDesc,
    }
}

/// The sort type preceding `t` in the picker, clamped at the top.
pub open spec fn prev_sort_type(t: ObjectListSortType) -> ObjectListSortType {
    match t {
        ObjectListSortType::Default => ObjectListSortType::Default,
        ObjectListSortType::NameAsc => ObjectListSortType::Default,
        ObjectListSortType::NameDesc => ObjectListSortType::NameAsc,
        ObjectListSortType::LastModifiedAsc => ObjectListSortType::NameDesc,
        ObjectListSortType::LastModifiedDesc => ObjectListSortType::LastModifiedAsc,
        ObjectListSortType::SizeAsc => ObjectListSortType::LastModifiedDesc,
        ObjectListSortType::SizeDesc => ObjectListSortType::SizeAsc,
    }
}

/// The sort picker: which ordering is highlighted.
#[derive(Clone, Copy, Debug, PartialEq, Eq, Structural)]
pub struct ObjectListSortDialogState {
    pub selected: ObjectListSortType,
}

impl Default for ObjectListSortDialogState {
    fn default() -> (r: Self)
        ensures
            r.selected == ObjectListSortType::Default,
    {
        ObjectListSortDialogState { selected: ObjectListSortType::Default }
    }
}

impl ObjectListSortDialogState {
    pub fn selected(&self) -> (r: ObjectListSortType)
        ensures
            r == self.selected,
    {
        self.selected
    }

    pub fn select_next(&mut self)
        ensures
            final(self).selected == next_sort_type(old(self).selected),
    {
        self.selected = match self.selected {
            ObjectListSortType::Default => ObjectListSortType::NameAsc,
            ObjectListSortType::NameAsc => ObjectListSortType::NameDesc,
            ObjectListSortType::NameDesc => ObjectListSortType::LastModifiedAsc,
            ObjectListSortType::LastModifiedAsc => ObjectListSortType::LastModifiedDesc,
            ObjectListSortType::LastModifiedDesc => ObjectListSortType::SizeAsc,
            ObjectListSortType::SizeAsc => ObjectListSortType::SizeDesc,
            ObjectListSortType::SizeDesc => ObjectListSortType::SizeDesc,
        };
    }

    pub fn select_prev(&mut self)
        ensures
            final(self).selected == prev_sort_type(old(self).selected),
    {
        self.selected = match self.selected {
            ObjectListSortType::Default => ObjectListSortType::Default,
            ObjectListSortType::NameAsc => ObjectListSortType::Default,
            ObjectListSortType::NameDesc => ObjectListSortType::NameAsc,
            ObjectListSortType::LastModifiedAsc => ObjectListSortType::NameDesc,
            ObjectListSortType::LastModifiedDesc => ObjectListSortType::LastModifiedAsc,
            ObjectListSortType::SizeAsc => ObjectListSortType::LastModifiedDesc,
            ObjectListSortType::SizeDesc => ObjectListSortType::SizeAsc,
        };
    }

    pub fn reset(&mut self)
        ensures
            final(self).selected == ObjectListSortType::Default,
    {
        self.selected = ObjectListSortDialogState::default().selected;
    }
}

/// The copy-detail picker: one row per copyable field of the item.
#[derive(Clone, Debug)]
pub struct CopyDetailDialogState {
    item: ObjectItem,
    selected: usize,
}

/// How many copyable fields an item offers.
pub open spec fn copy_detail_count(item: ObjectItem) -> int {
    if item is File {
        5
    } else {
        3
    }
}

/// The label/value pair shown on row `i` of the copy-detail dialog.
pub open spec fn copy_detail_entry(item: ObjectItem, i: int) -> (Seq<char>, Seq<char>) {
    match item {
        ObjectItem::Dir { name, key, s3_uri, object_url } => {
            if i == 0 {
                ("Key"@, key@)
            } else if i == 1 {
                ("S3 URI"@, s3_uri@)
            } else {
                ("Object URL"@, object_url@)
            }
        },
        ObjectItem::File { name, key, s3_uri, arn, object_url, e_tag, .. } => {
            if i == 0 {
                ("Key"@, key@)
            } else if i == 1 {
                ("S3 URI"@, s3_uri@)
            } else if i == 2 {
                ("ARN"@, arn@)
            } else if i == 3 {
                ("Object URL"@, object_url@)
            } else {
                ("ETag"@, e_tag@)
            }
        },
    }
}

impl CopyDetailDialogState {
    pub closed spec fn item_spec(self) -> ObjectItem {
        self.item
    }

    pub closed spec fn selected_spec(self) -> int {
        self.selected as int
    }

    pub open spec fn wf(self) -> bool {
        0 <= self.selected_spec() < copy_detail_count(self.item_spec())
    }

    pub fn object_list_dir(item: ObjectItem) -> (r: Self)
        requires
            !item.is_file(),
        ensures
            r.item_spec() == item,
            r.selected_spec() == 0,
            r.wf(),
    {
        CopyDetailDialogState { item, selected: 0 }
    }

    pub fn object_list_file(item: ObjectItem) -> (r: Self)
        requires
            item.is_file(),
        ensures
            r.item_spec() == item,
            r.selected_spec() == 0,
            r.wf(),
    {
        CopyDetailDialogState { item, selected: 0 }
    }

    pub fn select_next(&mut self)
        requires
            old(self).wf(),
        ensures
            final(self).wf(),
            final(self).item_spec() == old(self).item_spec(),
            final(self).selected_spec() == (if old(self).selected_spec() + 1 < copy_detail_count(
                old(self).item_spec(),
            ) {
                old(self).selected_spec() + 1
            } else {
                old(self).selected_spec()
            }),
    {
        let n: usize = match &self.item {
            ObjectItem::File { .. } => 5,
            ObjectItem::Dir { .. } => 3,
        };
        if self.selected + 1 < n {
            self.selected = self.selected + 1;
        }
    }

    pub fn select_prev(&mut self)
        requires
            old(self).wf(),
        ensures
            final(self).wf(),
            final(self).item_spec() == old(self).item_spec(),
            final(self).selected_spec() == (if old(self).selected_spec() > 0 {
                old(self).selected_spec() - 1
            } else {
                0int
            }),
    {
        if self.selected > 0 {
            self.selected = self.selected - 1;
        }
    }

    /// The label and value of the highlighted row.
    pub fn selected_name_and_value(&self) -> (r: (String, String))
        requires
            self.wf(),
        ensures
            r.0@ == copy_detail_entry(self.item_spec(), self.selected_spec()).0,
            r.1@ == copy_detail_entry(self.item_spec(), self.selected_spec()).1,
    {
        match &self.item {
            ObjectItem::Dir { key, s3_uri, object_url, .. } => {
                if self.selected == 0 {
                    (String::from_str("Key"), key.clone())
                } else if self.selected == 1 {
                    (String::from_str("S3 URI"), s3_uri.clone())
                } else {
                    (String::from_str("Object URL"), object_url.clone())
                }
            },
            ObjectItem::File { key, s3_uri, arn, object_url, e_tag, .. } => {
                if self.selected == 0 {
                    (String::from_str("Key"), key.clone())
                } else if self.selected == 1 {
                    (String::from_str("S3 URI"), s3_uri.clone())
                } else if self.selected == 2 {
                    (String::from_str("ARN"), arn.clone())
                } else if self.selected == 3 {
                    (String::from_str("Object URL"), object_url.clone())
                } else {
                    (String::from_str("ETag"), e_tag.clone())
                }
            },
        }
    }
}

} // verus!
