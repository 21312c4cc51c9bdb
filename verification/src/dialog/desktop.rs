use vstd::prelude::*;

use super::file::{completes_with, FileDialog, FileDialogAction, FileDialogResult};
use super::message::{
    output_of, ActionType, MessageDialogAction, MessageDialogOutput, MessageDialogResult,
};

verus! {

/// The native dialogue that a desktop file dialogue opens.
#[derive(Debug, Clone)]
pub enum DesktopFileRequest {
    /// A dialogue that opens one file.
    OpenSingleFile,
    /// A dialogue that saves one file, starting at `location` with `filename` filled in.
    SaveSingleFile { location: String, filename: String },
}

/// Whether the desktop dialogues can show `dialog`: they cannot pick images, and they
/// export exactly one path.
pub open spec fn desktop_supported(dialog: FileDialog) -> bool {
    &&& !(dialog.action is PickImage)
    &&& dialog.action is Export ==> dialog.action->paths@.len() == 1
}

/// Chooses the native dialogue for `dialog`: picking and browsing open one file (the
/// extensions are not passed on), exporting saves one file at the exported path under the
/// name "Untitled.pixaki".
pub fn file_picker_request(dialog: &FileDialog) -> (request: DesktopFileRequest)
    requires
        desktop_supported(*dialog),
    ensures
        (dialog.action is Pick || dialog.action is Browse) ==> request is OpenSingleFile,
        dialog.action is Export ==> {
            &&& request is SaveSingleFile
            &&& request->location == dialog.action->paths@[0]
            &&& request->filename@ == "Untitled.pixaki"@
        },
{
    match &dialog.action {
        FileDialogAction::Pick { .. } => DesktopFileRequest::OpenSingleFile,
        FileDialogAction::Browse => DesktopFileRequest::OpenSingleFile,
        FileDialogAction::Export { paths } => {
            let location = paths[0].clone();
            DesktopFileRequest::SaveSingleFile { location, filename: "Untitled.pixaki".to_owned() }
        },
        FileDialogAction::PickImage { .. } => {
            proof {
                assert(false);
            }
            DesktopFileRequest::OpenSingleFile
        },
    }
}

/// Turns what the native file dialogue gave back into the dialogue's result: `Err` when
/// the dialogue could not be shown, `Ok(None)` when it was cancelled, `Ok(Some(path))`
/// when `path` was chosen.
pub fn file_picker_result(outcome: Result<Option<String>, ()>) -> (r: FileDialogResult)
    ensures
        outcome matches Ok(Some(path)) ==> completes_with(r, seq![path]),
        !(outcome matches Ok(Some(_))) ==> r is Cancelled,
{
    match outcome {
        Ok(Some(path)) => {
            let mut selected_paths: Vec<String> = Vec::new();
            selected_paths.push(path);
            assert(selected_paths@ =~= seq![path]);
            FileDialogResult::Complete { selected_paths }
        },
        _ => FileDialogResult::Cancelled,
    }
}

/// The index of the first action of `actions` whose type is `action_type`, if any.
pub open spec fn first_of_type(actions: Seq<MessageDialogAction>, action_type: ActionType) -> Option<
    int,
>
    decreases actions.len(),
{
    if actions.len() == 0 {
        None
    } else {
        match first_of_type(actions.drop_last(), action_type) {
            Some(i) => Some(i),
            None => if actions.last().action_type == action_type {
                Some(actions.len() - 1)
            } else {
                None
            },
        }
    }
}

/// The index that a choice of type `action_type` reports: that of the first action of
/// that type, or 0 when the dialogue has none.
pub open spec fn chosen_index(actions: Seq<MessageDialogAction>, action_type: ActionType) -> int {
    match first_of_type(actions, action_type) {
        Some(i) => i,
        None => 0,
    }
}

/// `first_of_type` finds the first action of the type, whatever its style: when it gives
/// an index, the action there has the type and none before it does; it gives `None`
/// exactly when no action has the type.
pub proof fn lemma_first_of_type_is_first(actions: Seq<MessageDialogAction>, action_type: ActionType)
    ensures
        first_of_type(actions, action_type) matches Some(i) ==> {
            &&& 0 <= i < actions.len()
            &&& actions[i].action_type == action_type
            &&& forall|j: int| 0 <= j < i ==> (#[trigger] actions[j]).action_type != action_type
        },
        first_of_type(actions, action_type) is None <==> forall|j: int|
            0 <= j < actions.len() ==> (#[trigger] actions[j]).action_type != action_type,
    decreases actions.len(),
{
    if actions.len() > 0 {
        let rest = actions.drop_last();
        lemma_first_of_type_is_first(rest, action_type);
        assert forall|j: int| 0 <= j < rest.len() implies rest[j] == actions[j] by {}
        if first_of_type(actions, action_type) is None {
            assert forall|j: int| 0 <= j < actions.len() implies (
            #[trigger] actions[j]).action_type != action_type by {
                if j < rest.len() {
                    assert(rest[j] == actions[j]);
                }
            }
        }
    }
}

/// A choice reports the action the user chose: when the dialogue has an action of the
/// chosen type, the reported index is that of the first such action; when it has none,
/// the index is 0.
pub proof fn lemma_chosen_index_is_chosen_action(
    actions: Seq<MessageDialogAction>,
    action_type: ActionType,
)
    ensures
        (exists|j: int| 0 <= j < actions.len() && (#[trigger] actions[j]).action_type == action_type)
            ==> {
            let i = chosen_index(actions, action_type);
            &&& 0 <= i < actions.len()
            &&& actions[i].action_type == action_type
            &&& forall|j: int| 0 <= j < i ==> (#[trigger] actions[j]).action_type != action_type
        },
        (forall|j: int|
            0 <= j < actions.len() ==> (#[trigger] actions[j]).action_type != action_type)
            ==> chosen_index(actions, action_type) == 0,
{
    lemma_first_of_type_is_first(actions, action_type);
}

/// Finds the index of the first action of `actions` whose type is `action_type`.
pub fn find_first_of_type(actions: &Vec<MessageDialogAction>, action_type: ActionType) -> (found:
    Option<usize>)
    ensures
        match found {
            Some(i) => first_of_type(actions@, action_type) == Some(i as int),
            None => first_of_type(actions@, action_type) is None,
        },
{
    let n = actions.len();
    let mut i: usize = 0;
    while i < n
        invariant
            n == actions@.len(),
            i <= n,
            first_of_type(actions@.take(i as int), action_type) is None,
        decreases n - i,
    {
        assert(actions@.take(i + 1).drop_last() =~= actions@.take(i as int));
        if actions[i].action_type == action_type {
            proof {
                lemma_first_of_type_prefix(actions@, action_type, i as int + 1);
            }
            return Some(i);
        }
        i = i + 1;
    }
    assert(actions@.take(n as int) =~= actions@);
    None
}

/// Once a prefix of `actions` holds an action of the type, the first such action of the
/// prefix is the first of the whole.
proof fn lemma_first_of_type_prefix(
    actions: Seq<MessageDialogAction>,
    action_type: ActionType,
    k: int,
)
    requires
        0 <= k <= actions.len(),
        first_of_type(actions.take(k), action_type) is Some,
    ensures
        first_of_type(actions, action_type) == first_of_type(actions.take(k), action_type),
    decreases actions.len() - k,
{
    if k < actions.len() {
        assert(actions.take(k + 1).drop_last() =~= actions.take(k));
        lemma_first_of_type_prefix(actions, action_type, k + 1);
    } else {
        assert(actions.take(k) =~= actions);
    }
}

/// Turns what the native confirmation dialogue gave back into the dialogue's result.
/// `Ok(true)` means the user confirmed: the result is `Confirmed` and reports the index
/// of the dialogue's confirm action. `Ok(false)` means the user dismissed it, and `Err`
/// that it could not be shown: the result is `Dismissed` and reports the index of the
/// dismiss action. The index is that of the first action of the type in `actions`, or 0
/// when there is none. No text is entered.
pub fn alert_result(actions: &Vec<MessageDialogAction>, outcome: Result<bool, ()>) -> (r:
    MessageDialogResult)
    ensures
        r is Confirmed <==> outcome == Ok::<bool, ()>(true),
        r is Confirmed ==> output_of(r).selected_index == chosen_index(
            actions@,
            ActionType::Confirm,
        ) as u32,
        r is Dismissed ==> output_of(r).selected_index == chosen_index(
            actions@,
            ActionType::Dismiss,
        ) as u32,
        output_of(r).entered_text@.len() == 0,
{
    let action_type = match outcome {
        Ok(true) => ActionType::Confirm,
        _ => ActionType::Dismiss,
    };
    let index: usize = match find_first_of_type(actions, action_type) {
        Some(i) => i,
        None => 0,
    };
    let output = MessageDialogOutput { selected_index: index as u32, entered_text: Vec::new() };
    match action_type {
        ActionType::Confirm => MessageDialogResult::Confirmed(output),
        ActionType::Dismiss => MessageDialogResult::Dismissed(output),
    }
}

} // verus!
