use vstd::prelude::*;

use super::state::{collect_present, present, spec_poll, SharedState};

verus! {

/// Defines a message dialogue.
#[derive(Clone)]
pub struct MessageDialog {
    /// The dialogue title.
    pub title: String,
    /// The dialogue message.
    pub message: String,
    /// The actions.
    pub actions: Vec<MessageDialogAction>,
    /// The text fields.
    pub text_fields: Vec<TextInputConfiguration>,
}

/// The configuration for a text input box.
#[derive(Debug, Clone)]
pub struct TextInputConfiguration {
    /// The existing text.
    pub text: Option<String>,
    /// The placeholder text.
    pub placeholder: Option<String>,
    /// Whether or not to automatically select the text when the dialogue appears.
    pub autoselect: bool,
    /// Whether or not this is a secure text input.
    pub is_secure: bool,
}

/// An action that can be added to the message dialogue.
#[derive(Clone)]
pub struct MessageDialogAction {
    /// The action title.
    pub title: String,
    /// The action type.
    pub action_type: ActionType,
    /// The action style.
    pub style: ActionStyle,
}

/// The type of action.
#[derive(Debug, Clone, Copy, PartialEq, Eq, Structural)]
pub enum ActionType {
    /// Dismisses the dialogue.
    Dismiss,
    /// Confirms the action.
    Confirm,
}

/// The style for an action.
#[derive(Debug, Clone, Copy, PartialEq, Eq, Structural)]
pub enum ActionStyle {
    /// The default action style.
    Default,
    /// The style for cancel buttons.
    Cancel,
    /// The style for destructive actions.
    Destructive,
}

/// The output when a button is pressed on the message dialogue.
#[derive(Debug, Clone)]
pub struct MessageDialogOutput {
    /// The selected action index.
    pub selected_index: u32,
    /// The entered text, if any.
    pub entered_text: Vec<String>,
}

/// The result when a button is pressed on the message dialogue.
#[derive(Debug, Clone)]
pub enum MessageDialogResult {
    /// The result when a dismiss action was triggered.
    Dismissed(MessageDialogOutput),
    /// The result when a confirmation action was triggered.
    Confirmed(MessageDialogOutput),
}

/// Whether `action` shows `title` and has the given type and style.
pub open spec fn is_action(
    action: MessageDialogAction,
    title: Seq<char>,
    action_type: ActionType,
    style: ActionStyle,
) -> bool {
    &&& action.title@ == title
    &&& action.action_type == action_type
    &&& action.style == style
}

/// `new` is `old` with one more action at the end, described by `title`, `action_type`
/// and `style`; the title, message and text fields are those of `old`.
pub open spec fn appends_action(
    old: MessageDialog,
    new: MessageDialog,
    title: Seq<char>,
    action_type: ActionType,
    style: ActionStyle,
) -> bool {
    &&& new.title == old.title
    &&& new.message == old.message
    &&& new.text_fields == old.text_fields
    &&& new.actions@.len() == old.actions@.len() + 1
    &&& new.actions@.drop_last() == old.actions@
    &&& is_action(new.actions@.last(), title, action_type, style)
}

/// Whether `d` has an empty title and message, and no actions or text fields.
pub open spec fn is_blank(d: MessageDialog) -> bool {
    &&& d.title@ == Seq::<char>::empty()
    &&& d.message@ == Seq::<char>::empty()
    &&& d.actions@ == Seq::<MessageDialogAction>::empty()
    &&& d.text_fields@ == Seq::<TextInputConfiguration>::empty()
}

impl Default for MessageDialog {
    fn default() -> (d: Self)
        ensures
            is_blank(d),
    {
        MessageDialog {
            title: String::new(),
            message: String::new(),
            actions: Vec::new(),
            text_fields: Vec::new(),
        }
    }
}

impl Default for TextInputConfiguration {
    fn default() -> (c: Self)
        ensures
            c.text is None,
            c.placeholder is None,
            !c.autoselect,
            !c.is_secure,
    {
        TextInputConfiguration { text: None, placeholder: None, autoselect: false, is_secure: false }
    }
}

impl MessageDialog {
    /// Creates a new message dialogue with default values.
    pub fn new() -> (d: Self)
        ensures
            is_blank(d),
    {
        Self::default()
    }

    /// Sets the title.
    pub fn set_title(&mut self, title: &str) -> (res: &mut Self)
        ensures
            res.title@ == title@,
            res.message == old(self).message,
            res.actions == old(self).actions,
            res.text_fields == old(self).text_fields,
            *final(self) == *final(res),
    {
        self.title = title.to_owned();
        self
    }

    /// Sets the message.
    pub fn set_message(&mut self, message: &str) -> (res: &mut Self)
        ensures
            res.message@ == message@,
            res.title == old(self).title,
            res.actions == old(self).actions,
            res.text_fields == old(self).text_fields,
            *final(self) == *final(res),
    {
        self.message = message.to_owned();
        self
    }

    /// Adds an action.
    pub fn add_action(&mut self, title: &str, action_type: ActionType, style: ActionStyle) -> (res:
        &mut Self)
        ensures
            appends_action(*old(self), *res, title@, action_type, style),
            *final(self) == *final(res),
    {
        let action = MessageDialogAction { title: title.to_owned(), action_type, style };
        self.actions.push(action);
        proof {
            assert(self.actions@.drop_last() =~= old(self).actions@);
        }
        self
    }

    /// Adds a confirmation button.
    pub fn add_confirm(&mut self, title: &str) -> (res: &mut Self)
        ensures
            appends_action(*old(self), *res, title@, ActionType::Confirm, ActionStyle::Default),
            *final(self) == *final(res),
    {
        self.add_action(title, ActionType::Confirm, ActionStyle::Default)
    }

    /// Adds a destructive confirmation button.
    pub fn add_destructive_confirm(&mut self, title: &str) -> (res: &mut Self)
        ensures
            appends_action(*old(self), *res, title@, ActionType::Confirm, ActionStyle::Destructive),
            *final(self) == *final(res),
    {
        self.add_action(title, ActionType::Confirm, ActionStyle::Destructive)
    }

    /// Adds a dismiss button.
    pub fn add_dismiss(&mut self, title: &str) -> (res: &mut Self)
        ensures
            appends_action(*old(self), *res, title@, ActionType::Dismiss, ActionStyle::Cancel),
            *final(self) == *final(res),
    {
        self.add_action(title, ActionType::Dismiss, ActionStyle::Cancel)
    }

    /// Adds an OK button.
    pub fn add_ok(&mut self) -> (res: &mut Self)
        ensures
            appends_action(*old(self), *res, "OK"@, ActionType::Dismiss, ActionStyle::Cancel),
            *final(self) == *final(res),
    {
        self.add_dismiss("OK")
    }

    /// Adds a cancel button.
    pub fn add_cancel(&mut self) -> (res: &mut Self)
        ensures
            appends_action(*old(self), *res, "Cancel"@, ActionType::Dismiss, ActionStyle::Cancel),
            *final(self) == *final(res),
    {
        self.add_dismiss("Cancel")
    }

    /// Adds a text field.
    pub fn add_text_input(&mut self, configuration: TextInputConfiguration) -> (res: &mut Self)
        ensures
            res.title == old(self).title,
            res.message == old(self).message,
            res.actions == old(self).actions,
            res.text_fields@ == old(self).text_fields@.push(configuration),
            *final(self) == *final(res),
    {
        self.text_fields.push(configuration);
        self
    }
}

/// The output of `r`, whichever kind it is.
pub open spec fn output_of(r: MessageDialogResult) -> MessageDialogOutput {
    match r {
        MessageDialogResult::Dismissed(o) => o,
        MessageDialogResult::Confirmed(o) => o,
    }
}

/// Whether `r` is the result of pressing the action at `index`, of type `action_type`,
/// while the text fields held `texts` (`None` for a field without text).
pub open spec fn is_action_result(
    r: MessageDialogResult,
    index: usize,
    action_type: ActionType,
    texts: Seq<Option<String>>,
) -> bool {
    &&& (r is Confirmed <==> action_type == ActionType::Confirm)
    &&& output_of(r).selected_index == index as u32
    &&& output_of(r).entered_text@ == present(texts)
}

/// Pressing an action reports the position of the pressed action, whatever its type:
/// pressing the same action as a confirmation and as a dismissal reports the same index
/// (the pressed one, when it fits in `u32`) and the same text, and only the kind of
/// result differs.
pub proof fn lemma_press_reports_pressed_index(
    confirmed: MessageDialogResult,
    dismissed: MessageDialogResult,
    index: usize,
    texts: Seq<Option<String>>,
)
    requires
        is_action_result(confirmed, index, ActionType::Confirm, texts),
        is_action_result(dismissed, index, ActionType::Dismiss, texts),
    ensures
        confirmed is Confirmed,
        dismissed is Dismissed,
        output_of(confirmed).selected_index == output_of(dismissed).selected_index,
        index <= u32::MAX ==> output_of(dismissed).selected_index == index,
        index <= u32::MAX ==> output_of(confirmed).selected_index == index,
        output_of(confirmed).entered_text@ == output_of(dismissed).entered_text@,
{
}

/// Builds the result of pressing the action at `index`.
pub fn action_result(index: usize, action_type: ActionType, texts: &Vec<Option<String>>) -> (r:
    MessageDialogResult)
    ensures
        is_action_result(r, index, action_type, texts@),
{
    let output = MessageDialogOutput {
        selected_index: index as u32,
        entered_text: collect_present(texts),
    };
    match action_type {
        ActionType::Dismiss => MessageDialogResult::Dismissed(output),
        ActionType::Confirm => MessageDialogResult::Confirmed(output),
    }
}

/// The future for the alert: it resolves to the result of the first action pressed.
pub struct AlertFuture<W> {
    /// The state shared with the presented alert.
    pub state: SharedState<MessageDialogResult, W>,
}

/// Whether pressing the action at `index`, of type `action_type`, while the text fields
/// hold `texts`, takes the alert's future from `old` to `new` and hands back `to_wake`: the
/// press counts only while no other result waits to be polled.
pub open spec fn is_press<W>(
    old: AlertFuture<W>,
    new: AlertFuture<W>,
    index: usize,
    action_type: ActionType,
    texts: Seq<Option<String>>,
    to_wake: Option<W>,
) -> bool {
    if old.state.result is None {
        &&& new.state.result matches Some(r) && is_action_result(r, index, action_type, texts)
        &&& new.state.waker is None
        &&& to_wake == old.state.waker
    } else {
        new == old && to_wake is None
    }
}

/// Of two actions pressed before the alert's future is polled, the first is the one
/// reported.
pub proof fn lemma_first_press_wins<W>(
    f0: AlertFuture<W>,
    f1: AlertFuture<W>,
    f2: AlertFuture<W>,
    i1: usize,
    t1: ActionType,
    texts1: Seq<Option<String>>,
    w1: Option<W>,
    i2: usize,
    t2: ActionType,
    texts2: Seq<Option<String>>,
    w2: Option<W>,
    waker: W,
)
    requires
        f0.state.result is None,
        is_press(f0, f1, i1, t1, texts1, w1),
        is_press(f1, f2, i2, t2, texts2, w2),
    ensures
        spec_poll(f2.state, waker).1 matches Some(r) && is_action_result(r, i1, t1, texts1),
        w2 is None,
{
}

/// Actions added one after the other stand in `actions` in the order they were added,
/// after the actions that were there before.
pub proof fn lemma_actions_in_call_order(
    d0: MessageDialog,
    d1: MessageDialog,
    d2: MessageDialog,
    title1: Seq<char>,
    type1: ActionType,
    style1: ActionStyle,
    title2: Seq<char>,
    type2: ActionType,
    style2: ActionStyle,
)
    requires
        appends_action(d0, d1, title1, type1, style1),
        appends_action(d1, d2, title2, type2, style2),
    ensures
        d2.actions@.len() == d0.actions@.len() + 2,
        d2.actions@.take(d0.actions@.len() as int) == d0.actions@,
        is_action(d2.actions@[d0.actions@.len() as int], title1, type1, style1),
        is_action(d2.actions@[d0.actions@.len() + 1int], title2, type2, style2),
{
    assert(d2.actions@.take(d0.actions@.len() as int) =~= d0.actions@);
}

impl<W> AlertFuture<W> {
    /// Creates a future that has no result yet.
    pub fn new() -> (f: Self)
        ensures
            f.state.result is None,
            f.state.waker is None,
    {
        AlertFuture { state: SharedState::new() }
    }

    /// Polls the future: `Some` when an action was pressed, otherwise `None`, after
    /// registering `waker`.
    pub fn poll(&mut self, waker: W) -> (ready: Option<MessageDialogResult>)
        ensures
            (final(self).state, ready) == spec_poll(old(self).state, waker),
    {
        self.state.poll(waker)
    }

    /// Called when the action at `index`, of type `action_type`, is pressed while the text
    /// fields hold `texts`. The press counts only while no other result waits to be
    /// polled; returns the waker to wake, if any.
    pub fn action_selected(
        &mut self,
        index: usize,
        action_type: ActionType,
        texts: &Vec<Option<String>>,
    ) -> (to_wake: Option<W>)
        ensures
            is_press(*old(self), *final(self), index, action_type, texts@, to_wake),
    {
        if self.state.result.is_none() {
            let result = action_result(index, action_type, texts);
            self.state.send_result(result)
        } else {
            None
        }
    }
}

} // verus!
