//! The folders of a mailbox, one of which is chosen.

use vstd::prelude::*;
use vstd::string::*;

use crate::action::{Action, ActionModel};
use crate::imap::FolderModel;
use crate::keys::{Key, KeyCode};
use crate::text;
use crate::text::concat;
use crate::types::Folder;
use crate::ui;
use crate::ui::{
    block, draw_hint, draw_menu, ink, item, line, plain, Area, Drawn, DrawnModel, Item, ItemModel,
    ListState, Tint,
};
use crate::utils;
use crate::utils::{folder_display_name, is_sound_name};

verus! {

broadcast use {
    vstd::string::group_string_axioms,
    text::views_push,
    text::views_empty,
};

/// The folders; `D` is a list of them.
#[derive(Clone, Debug, PartialEq, Eq)]
pub struct FolderList<D = Vec<Folder>> {
    pub folders: D,
    pub state: ListState,
}

/// The model of the folders.
pub type FoldersModel = FolderList<Seq<FolderModel>>;

impl View for FolderList<Vec<Folder>> {
    type V = FoldersModel;

    open spec fn view(&self) -> FoldersModel {
        FolderList { folders: text::views(self.folders@), state: self.state }
    }
}

/// The list with these folders, of which the first is chosen, if there is one.
pub open spec fn showing(list: FoldersModel, folders: Seq<FolderModel>) -> FoldersModel {
    FolderList {
        folders,
        state: list.state.choosing(
            if folders.len() == 0 {
                None
            } else {
                Some(0)
            },
        ),
    }
}

/// The folder that is chosen.
pub open spec fn chosen_folder(list: FoldersModel) -> Option<FolderModel> {
    match list.state.selected {
        Some(i) => if i < list.folders.len() {
            Some(list.folders[i as int])
        } else {
            None
        },
        None => None,
    }
}

/// The list after a key, and what the client is told to do.
pub open spec fn folders_key(list: FoldersModel, key: Key) -> (FoldersModel, Option<ActionModel>) {
    if key.code == KeyCode::Char('j') || key.code == KeyCode::Down {
        (FolderList { state: list.state.below(list.folders.len()), ..list }, None)
    } else if key.code == KeyCode::Char('k') || key.code == KeyCode::Up {
        (FolderList { state: list.state.above(), ..list }, None)
    } else if key.code == KeyCode::Enter {
        (
            list,
            match chosen_folder(list) {
                Some(f) => Some(Action::SelectFolder(f.name)),
                None => None,
            },
        )
    } else {
        (list, None)
    }
}

/// Whether the names of the folders can be shown.
pub open spec fn names_sound(folders: Seq<FolderModel>) -> bool {
    forall|i: int| 0 <= i < folders.len() ==> utils::sound_name((#[trigger] folders[i]).name)
}

/// The item of a folder.
pub open spec fn folder_item(f: FolderModel) -> ItemModel {
    seq![seq![ui::dyed(" "@ + utils::shown_name(utils::utf7_text(f.name)) + " "@, plain())]]
}

/// The list in an area.
pub open spec fn folders_drawn(list: FoldersModel, area: Area) -> Seq<DrawnModel> {
    let menu = ui::menu_in(
        area,
        list.folders.map_values(|f: FolderModel| folder_item(f)),
        ui::framed(" 📂 文件夹 "@, ink(Tint::Cyan)),
        list.state,
    );
    if list.folders.len() == 0 {
        seq![menu, ui::hint_in(area.within_border(), "暂无文件夹\n按 q 返回"@)]
    } else {
        seq![menu]
    }
}

impl FolderList<Vec<Folder>> {
    /// No folders.
    pub fn new() -> (r: Self)
        ensures
            r@ == (FoldersModel {
                folders: seq![],
                state: ListState { offset: 0, selected: Some(0) },
            }),
    {
        let folders: Vec<Folder> = Vec::new();
        assert(text::views(folders@) =~= seq![]);
        FolderList { folders, state: ListState { offset: 0, selected: Some(0) } }
    }

    /// Shows these folders.
    pub fn set_folders(&mut self, folders: Vec<Folder>)
        ensures
            final(self)@ == showing(old(self)@, text::views(folders@)),
    {
        self.folders = folders;
        self.state.select(
            if self.folders.len() == 0 {
                None
            } else {
                Some(0)
            },
        );
    }

    /// The folder that is chosen.
    pub fn selected_folder(&self) -> (r: Option<&Folder>)
        ensures
            match r {
                Some(f) => chosen_folder(self@) == Some(f@),
                None => chosen_folder(self@) is None,
            },
    {
        match self.state.selected {
            Some(i) => if i < self.folders.len() {
                Some(&self.folders[i])
            } else {
                None
            },
            None => None,
        }
    }

    /// Takes a key.
    pub fn handle_key_event(&mut self, key: Key) -> (r: Option<Action>)
        ensures
            (final(self)@, text::opt_view(r)) == folders_key(old(self)@, key),
    {
        if key.code == KeyCode::Char('j') || key.code == KeyCode::Down {
            let n = self.folders.len();
            self.state.next(n);
            None
        } else if key.code == KeyCode::Char('k') || key.code == KeyCode::Up {
            self.state.prev();
            None
        } else if key.code == KeyCode::Enter {
            match self.selected_folder() {
                Some(f) => Some(Action::SelectFolder(f.name.clone())),
                None => None,
            }
        } else {
            None
        }
    }

    /// Whether the names of the folders can be shown.
    pub fn has_sound_names(&self) -> (r: bool)
        ensures
            r == names_sound(self@.folders),
    {
        let ghost all = self@.folders;
        let mut i: usize = 0;
        while i < self.folders.len()
            invariant
                i <= self.folders.len(),
                all == text::views(self.folders@),
                all == self@.folders,
                forall|j: int| 0 <= j < i ==> utils::sound_name((#[trigger] all[j]).name),
            decreases self.folders.len() - i,
        {
            assert(all[i as int] == self.folders[i as int]@);
            if !is_sound_name(self.folders[i].name.as_str()) {
                return false;
            }
            i += 1;
        }
        true
    }

    /// Draws the list.
    pub fn draw(&self, area: Area) -> (r: Vec<Drawn>)
        requires
            names_sound(self@.folders),
        ensures
            text::views(r@) == folders_drawn(self@, area),
    {
        let ghost all = self@.folders;
        let mut items: Vec<Item> = Vec::new();
        let mut i: usize = 0;
        while i < self.folders.len()
            invariant
                i <= self.folders.len(),
                all == text::views(self.folders@),
                names_sound(all),
                items.len() == i,
                forall|j: int| 0 <= j < i ==> (#[trigger] items[j])@ == folder_item(all[j]),
            decreases self.folders.len() - i,
        {
            assert(all[i as int] == self.folders[i as int]@);
            let mut s = concat(
                " ",
                folder_display_name(self.folders[i].name.as_str()).as_str(),
            );
            s.append(" ");
            items.push(item(line(s.as_str(), plain())));
            i += 1;
        }
        assert(text::views(items@) =~= all.map_values(|f: FolderModel| folder_item(f)));
        let mut out: Vec<Drawn> = Vec::new();
        out.push(draw_menu(area, items, block(" 📂 文件夹 ", ink(Tint::Cyan)), self.state));
        if self.folders.len() == 0 {
            out.push(draw_hint(area.bordered(), "暂无文件夹\n按 q 返回"));
        }
        out
    }
}

/// A folder that is chosen in a list that is shown anew is the first one.
pub proof fn first_folder_chosen(list: FoldersModel, folders: Seq<FolderModel>)
    ensures
        chosen_folder(showing(list, folders)) == if folders.len() == 0 {
            None
        } else {
            Some(folders[0])
        },
{
}

} // verus!
