//! The actions that the function keys trigger, the dialog that each one
//! opens, and the call to the resource provider that the dialog's result
//! turns into.

use vstd::prelude::*;
use crate::content::{copy_strings, texts, ContentType};
use crate::dialog::{Cancelled, ConfirmDialog, ConfirmDialogView, InputDialog, InputDialogView};
use crate::text::{decimal, decimal_string};

verus! {

/// What can be done to the selected resources.
#[derive(Clone, Copy, Debug, PartialEq, Eq, Structural)]
pub enum Action {
    Create,
    Snapshot,
    Clone,
    Rename,
    Scrub,
    Rollback,
    Destroy,
}

impl Action {
    /// The action that function key `n` triggers in a pane of the given
    /// kind, if it triggers any.
    pub open spec fn for_key(kind: ContentType, n: int) -> Option<Action> {
        if n == 2 {
            match kind {
                ContentType::Datasets => Some(Action::Create),
                _ => None,
            }
        } else if n == 5 {
            match kind {
                ContentType::Pools => None,
                ContentType::Datasets => Some(Action::Snapshot),
                ContentType::Volumes => Some(Action::Snapshot),
                ContentType::Snapshots => Some(Action::Clone),
            }
        } else if n == 6 {
            match kind {
                ContentType::Pools => None,
                _ => Some(Action::Rename),
            }
        } else if n == 7 {
            match kind {
                ContentType::Pools => Some(Action::Scrub),
                ContentType::Snapshots => Some(Action::Rollback),
                _ => None,
            }
        } else if n == 8 {
            Some(Action::Destroy)
        } else {
            None
        }
    }

    /// Whether the action opens an input dialog; the others open a confirm
    /// dialog.
    pub open spec fn takes_input(self) -> bool {
        match self {
            Action::Create | Action::Snapshot | Action::Clone | Action::Rename => true,
            _ => false,
        }
    }

    /// The action's label on the menu bar.
    pub open spec fn label_text(self) -> Seq<char> {
        match self {
            Action::Create => "Creat"@,
            Action::Snapshot => "Snaps"@,
            Action::Clone => "Clone"@,
            Action::Rename => "Renam"@,
            Action::Scrub => "Scrub"@,
            Action::Rollback => "RollB"@,
            Action::Destroy => "Destr"@,
        }
    }

    /// The title of the action's dialog.
    pub open spec fn title_text(self) -> Seq<char> {
        match self {
            Action::Create => " Create Dataset: "@,
            Action::Snapshot => " Snapshot Dataset: "@,
            Action::Clone => " Clone Snapshot: "@,
            Action::Rename => " Rename Dataset: "@,
            Action::Scrub => " Confirm Scrub: "@,
            Action::Rollback => " Confirm Rollback: "@,
            Action::Destroy => " Confirm Destroy: "@,
        }
    }

    /// The prompt of the action's dialog.
    pub open spec fn prompt_text(self) -> Seq<char> {
        match self {
            Action::Create => "Enter the name of the new Dataset"@,
            Action::Snapshot => "Enter the name of the new Snapshot"@,
            Action::Clone => "Enter the name of the new Snapshot"@,
            Action::Rename => "Enter the new name for the Dataset"@,
            Action::Scrub => "The following pools(s) will be scrubbed: "@,
            Action::Rollback => "The Dataset(s) will be rolled back to the following snapshot(s): "@,
            Action::Destroy => "The following element(s) will be destroyed: "@,
        }
    }

    /// The action that function key `n` triggers in a pane of the given
    /// kind, if it triggers any.
    pub fn bound_to(kind: ContentType, n: u8) -> (action: Option<Action>)
        ensures
            action == Action::for_key(kind, n as int),
    {
        if n == 2 {
            match kind {
                ContentType::Datasets => Some(Action::Create),
                _ => None,
            }
        } else if n == 5 {
            match kind {
                ContentType::Pools => None,
                ContentType::Datasets => Some(Action::Snapshot),
                ContentType::Volumes => Some(Action::Snapshot),
                ContentType::Snapshots => Some(Action::Clone),
            }
        } else if n == 6 {
            match kind {
                ContentType::Pools => None,
                _ => Some(Action::Rename),
            }
        } else if n == 7 {
            match kind {
                ContentType::Pools => Some(Action::Scrub),
                ContentType::Snapshots => Some(Action::Rollback),
                _ => None,
            }
        } else if n == 8 {
            Some(Action::Destroy)
        } else {
            None
        }
    }

    /// Whether the action opens an input dialog.
    pub fn is_input(&self) -> (input: bool)
        ensures
            input == self.takes_input(),
    {
        match self {
            Action::Create | Action::Snapshot | Action::Clone | Action::Rename => true,
            _ => false,
        }
    }

    /// The action's label on the menu bar.
    pub fn label(&self) -> (label: &'static str)
        ensures
            label@ == self.label_text(),
    {
        match self {
            Action::Create => "Creat",
            Action::Snapshot => "Snaps",
            Action::Clone => "Clone",
            Action::Rename => "Renam",
            Action::Scrub => "Scrub",
            Action::Rollback => "RollB",
            Action::Destroy => "Destr",
        }
    }

    /// The title of the action's dialog.
    pub fn title(&self) -> (title: &'static str)
        ensures
            title@ == self.title_text(),
    {
        match self {
            Action::Create => " Create Dataset: ",
            Action::Snapshot => " Snapshot Dataset: ",
            Action::Clone => " Clone Snapshot: ",
            Action::Rename => " Rename Dataset: ",
            Action::Scrub => " Confirm Scrub: ",
            Action::Rollback => " Confirm Rollback: ",
            Action::Destroy => " Confirm Destroy: ",
        }
    }

    /// The prompt of the action's dialog.
    pub fn prompt(&self) -> (prompt: &'static str)
        ensures
            prompt@ == self.prompt_text(),
    {
        match self {
            Action::Create => "Enter the name of the new Dataset",
            Action::Snapshot => "Enter the name of the new Snapshot",
            Action::Clone => "Enter the name of the new Snapshot",
            Action::Rename => "Enter the new name for the Dataset",
            Action::Scrub => "The following pools(s) will be scrubbed: ",
            Action::Rollback => "The Dataset(s) will be rolled back to the following snapshot(s): ",
            Action::Destroy => "The following element(s) will be destroyed: ",
        }
    }
}

/// How a dialog names what is selected: the name itself where one is
/// selected, else the count followed by ` elements`.
pub open spec fn selected_text(names: Seq<Seq<char>>) -> Seq<char> {
    if names.len() == 1 {
        names[0]
    } else {
        decimal(names.len()) + " elements"@
    }
}

/// How a dialog names what is selected: the name itself where one is
/// selected, else the count followed by ` elements`.
pub fn selected_string(selected_elements: &Vec<String>) -> (text: String)
    ensures
        text@ == selected_text(texts(selected_elements@)),
{
    if selected_elements.len() == 1 {
        selected_elements[0].clone()
    } else {
        let mut text = decimal_string(selected_elements.len());
        text.append(" elements");
        text
    }
}

/// A call to the resource provider, with its arguments.
#[derive(Clone, Debug, PartialEq, Eq)]
pub enum ProviderCall {
    Create { name: String },
    Snapshot { name: String },
    Clone { source: String, name: String },
    Rename { old_name: String, new_name: String },
    Scrub { names: Vec<String> },
    Rollback { names: Vec<String> },
    /// Destroys pools.
    DestroyPools { names: Vec<String> },
    /// Destroys datasets, volumes or snapshots.
    Destroy { names: Vec<String> },
}

/// A call to the resource provider as plain data.
pub enum ProviderCallView {
    Create { name: Seq<char> },
    Snapshot { name: Seq<char> },
    Clone { source: Seq<char>, name: Seq<char> },
    Rename { old_name: Seq<char>, new_name: Seq<char> },
    Scrub { names: Seq<Seq<char>> },
    Rollback { names: Seq<Seq<char>> },
    DestroyPools { names: Seq<Seq<char>> },
    Destroy { names: Seq<Seq<char>> },
}

impl View for ProviderCall {
    type V = ProviderCallView;

    open spec fn view(&self) -> ProviderCallView {
        match *self {
            ProviderCall::Create { name } => ProviderCallView::Create { name: name@ },
            ProviderCall::Snapshot { name } => ProviderCallView::Snapshot { name: name@ },
            ProviderCall::Clone { source, name } => ProviderCallView::Clone {
                source: source@,
                name: name@,
            },
            ProviderCall::Rename { old_name, new_name } => ProviderCallView::Rename {
                old_name: old_name@,
                new_name: new_name@,
            },
            ProviderCall::Scrub { names } => ProviderCallView::Scrub { names: texts(names@) },
            ProviderCall::Rollback { names } => ProviderCallView::Rollback { names: texts(names@) },
            ProviderCall::DestroyPools { names } => ProviderCallView::DestroyPools {
                names: texts(names@),
            },
            ProviderCall::Destroy { names } => ProviderCallView::Destroy { names: texts(names@) },
        }
    }
}

/// The call of an optional provider call, as plain data.
pub open spec fn call_view(call: Option<ProviderCall>) -> Option<ProviderCallView> {
    match call {
        Some(c) => Some(c@),
        None => None,
    }
}

/// An action that a function key has triggered and that waits for its
/// dialog: which action, in a pane of which kind, on which names.
#[derive(Clone, Debug, PartialEq, Eq)]
pub struct ActionRequest {
    pub action: Action,
    pub kind: ContentType,
    pub targets: Vec<String>,
}

/// A triggered action as plain data.
pub struct ActionRequestView {
    pub action: Action,
    pub kind: ContentType,
    pub targets: Seq<Seq<char>>,
}

impl View for ActionRequest {
    type V = ActionRequestView;

    open spec fn view(&self) -> ActionRequestView {
        ActionRequestView { action: self.action, kind: self.kind, targets: texts(self.targets@) }
    }
}

impl ActionRequestView {
    /// The line that the dialog starts with: for an input dialog the text
    /// to edit (nothing for create and clone, the selected name and `@` for
    /// snapshot, the selected name for rename), for a confirm dialog what
    /// is selected.
    pub open spec fn info(self) -> Seq<char> {
        match self.action {
            Action::Create => Seq::empty(),
            Action::Clone => Seq::empty(),
            Action::Snapshot => selected_text(self.targets).push('@'),
            _ => selected_text(self.targets),
        }
    }

    /// The input dialog that the action opens.
    pub open spec fn input_dialog(self) -> InputDialogView {
        InputDialogView {
            title: self.action.title_text(),
            prompt: self.action.prompt_text(),
            input: self.info(),
        }
    }

    /// The confirm dialog that the action opens.
    pub open spec fn confirm_dialog(self) -> ConfirmDialogView {
        ConfirmDialogView {
            title: self.action.title_text(),
            prompt: self.action.prompt_text(),
            info: self.info(),
        }
    }

    /// The call that follows the result of the input dialog: none after a
    /// cancel, and none for an action that takes no input.
    pub open spec fn named(self, answer: Result<Seq<char>, Cancelled>) -> Option<ProviderCallView> {
        match answer {
            Err(_) => None,
            Ok(name) => match self.action {
                Action::Create => Some(ProviderCallView::Create { name }),
                Action::Snapshot => Some(ProviderCallView::Snapshot { name }),
                Action::Clone => Some(
                    ProviderCallView::Clone { source: selected_text(self.targets), name },
                ),
                Action::Rename => Some(
                    ProviderCallView::Rename {
                        old_name: selected_text(self.targets),
                        new_name: name,
                    },
                ),
                _ => None,
            },
        }
    }

    /// The call that follows the result of the confirm dialog: none after a
    /// cancel, and none for an action that takes input. What was selected
    /// in a pane of pools is destroyed as pools.
    pub open spec fn confirmed(self, answer: Result<(), Cancelled>) -> Option<ProviderCallView> {
        match answer {
            Err(_) => None,
            Ok(_) => match self.action {
                Action::Scrub => Some(ProviderCallView::Scrub { names: self.targets }),
                Action::Rollback => Some(ProviderCallView::Rollback { names: self.targets }),
                Action::Destroy => match self.kind {
                    ContentType::Pools => Some(
                        ProviderCallView::DestroyPools { names: self.targets },
                    ),
                    _ => Some(ProviderCallView::Destroy { names: self.targets }),
                },
                _ => None,
            },
        }
    }
}

/// The answer of an input dialog with its text as plain data.
pub open spec fn answer_text(answer: Result<String, Cancelled>) -> Result<Seq<char>, Cancelled> {
    match answer {
        Ok(name) => Ok(name@),
        Err(e) => Err(e),
    }
}

impl ActionRequest {
    /// The line that the action's dialog starts with.
    pub fn info(&self) -> (line: String)
        ensures
            line@ == self@.info(),
    {
        match self.action {
            Action::Create => String::new(),
            Action::Clone => String::new(),
            Action::Snapshot => {
                let mut line = selected_string(&self.targets);
                line.push('@');
                line
            },
            _ => selected_string(&self.targets),
        }
    }

    /// The input dialog that the action opens, if it opens one.
    pub fn input_dialog(&self) -> (dialog: Option<InputDialog>)
        ensures
            dialog is Some <==> self@.action.takes_input(),
            dialog matches Some(d) ==> d@ == self@.input_dialog(),
    {
        if self.action.is_input() {
            let info = self.info();
            Some(InputDialog::new(self.action.title(), self.action.prompt(), info.as_str()))
        } else {
            None
        }
    }

    /// The confirm dialog that the action opens, if it opens one.
    pub fn confirm_dialog(&self) -> (dialog: Option<ConfirmDialog>)
        ensures
            dialog is Some <==> !self@.action.takes_input(),
            dialog matches Some(d) ==> d@ == self@.confirm_dialog(),
    {
        if self.action.is_input() {
            None
        } else {
            let info = self.info();
            Some(ConfirmDialog::new(self.action.title(), self.action.prompt(), info.as_str()))
        }
    }

    /// Turns the result of the input dialog into the call to make. The
    /// name goes to the provider as it was entered. No call follows a
    /// cancel.
    pub fn resolve_input(&self, answer: Result<String, Cancelled>) -> (call: Option<ProviderCall>)
        ensures
            call_view(call) == self@.named(answer_text(answer)),
    {
        match answer {
            Err(_) => None,
            Ok(name) => match self.action {
                Action::Create => Some(ProviderCall::Create { name }),
                Action::Snapshot => Some(ProviderCall::Snapshot { name }),
                Action::Clone => Some(
                    ProviderCall::Clone { source: selected_string(&self.targets), name },
                ),
                Action::Rename => Some(
                    ProviderCall::Rename {
                        old_name: selected_string(&self.targets),
                        new_name: name,
                    },
                ),
                _ => None,
            },
        }
    }

    /// Turns the result of the confirm dialog into the call to make, on the
    /// selected names as they are. No call follows a cancel.
    pub fn resolve_confirm(&self, answer: Result<(), Cancelled>) -> (call: Option<ProviderCall>)
        ensures
            call_view(call) == self@.confirmed(answer),
    {
        match answer {
            Err(_) => None,
            Ok(_) => match self.action {
                Action::Scrub => Some(ProviderCall::Scrub { names: copy_strings(&self.targets) }),
                Action::Rollback => Some(
                    ProviderCall::Rollback { names: copy_strings(&self.targets) },
                ),
                Action::Destroy => match self.kind {
                    ContentType::Pools => Some(
                        ProviderCall::DestroyPools { names: copy_strings(&self.targets) },
                    ),
                    _ => Some(ProviderCall::Destroy { names: copy_strings(&self.targets) }),
                },
                _ => None,
            },
        }
    }
}

/// Escape in a dialog leads to no call, whatever the action and whatever
/// was selected.
pub proof fn lemma_cancel_calls_nothing(request: ActionRequestView)
    ensures
        request.named(Err(Cancelled)) is None,
        request.confirmed(Err(Cancelled)) is None,
{
}

} // verus!
