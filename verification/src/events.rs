//! Abstract input events and outbound application events.
//!
//! `UserEvent` tags arrive from the key-mapping collaborator; `AppEventType`
//! values are emitted by the page and performed by the application shell.

use vstd::prelude::*;

use crate::item::{DownloadObjectInfo, ObjectItem, ObjectKey, PasteSpec};

verus! {

/// Abstract user input event, produced outside the core by mapping raw keys.
#[derive(Clone, Copy, Debug, PartialEq, Eq, Structural)]
pub enum UserEvent {
    Quit,
    Help,
    ObjectListSelect,
    ObjectListBack,
    ObjectListDown,
    ObjectListUp,
    ObjectListGoToTop,
    ObjectListGoToBottom,
    ObjectListPageDown,
    ObjectListPageUp,
    ObjectListRefresh,
    ObjectListBucketList,
    ObjectListManagementConsole,
    ObjectListFilter,
    ObjectListSort,
    ObjectListGoToPath,
    ObjectListCopyObject,
    ObjectListPasteObject,
    ObjectListCopyDetails,
    ObjectListDownloadObject,
    ObjectListDownloadObjectAs,
    ObjectListResetFilter,
    InputDialogClose,
    InputDialogApply,
    SelectDialogClose,
    SelectDialogDown,
    SelectDialogUp,
    SelectDialogLeft,
    SelectDialogRight,
    SelectDialogSelect,
}

/// A raw key as seen by a text-entry dialog; everything the buffer editor
/// reacts to, with `Other` standing for any key it ignores.
#[derive(Clone, Copy, Debug, PartialEq, Eq, Structural)]
pub enum KeyInput {
    Char(char),
    Backspace,
    Delete,
    Left,
    Right,
    Home,
    End,
    Other,
}

/// Outbound event emitted by the page for the application shell to perform.
#[derive(Clone, Debug)]
pub enum AppEventType {
    ObjectListMoveDown,
    ObjectListMoveUp,
    ObjectListRefresh,
    BackToBucketList,
    OpenHelp,
    GoToPath(ObjectKey),
    CopyObject(ObjectKey, ObjectItem),
    StartPasteObject(ObjectKey),
    PasteObject(PasteSpec),
    CopyToClipboard(String, String),
    StartLoadAllDownloadObjectList(ObjectKey, bool),
    StartDownloadObject(ObjectKey, String, usize, Option<String>),
    StartDownloadObjectAs(ObjectKey, usize, String, Option<String>),
    DownloadObjects(String, ObjectKey, String, Vec<DownloadObjectInfo>),
    ObjectListOpenManagementConsole(ObjectKey),
}

} // verus!
