use vstd::prelude::*;

verus! {

/// How severe a reported message is.
#[derive(Debug, Clone, Copy, PartialEq, Eq, Structural)]
pub enum MessageDialogType {
    /// The application quits once the dialog closes.
    Fatal,
    Error,
    Warning,
}

/// A button of the dialog was pressed.
#[derive(Debug, Clone, Copy, PartialEq, Eq, Structural)]
pub enum PrivateMsg {
    CreateReportButtonPressed,
    CloseButtonPressed,
}

/// A request to the dialog: show a message (kind, optional title, text), or a button press.
#[derive(Debug, Clone, PartialEq, Eq)]
pub enum MessageDialogInput {
    Message(MessageDialogType, Option<String>, String),
    PrivateMessage(PrivateMsg),
}

/// What the dialog asks of the application.
#[derive(Debug, Clone, Copy, PartialEq, Eq, Structural)]
pub enum MessageDialogOutput {
    CreateReport,
    Quit,
}

/// The dialog that shows errors and warnings to the user.
#[derive(Debug)]
pub struct MessageDialog {
    pub hidden: bool,
    pub dialog_type: MessageDialogType,
    /// The title given with the message; `None` for the standard title of its kind.
    pub title: Option<String>,
    pub text: String,
}

impl MessageDialog {
    /// A hidden dialog.
    pub fn new() -> (r: MessageDialog)
        ensures
            r.hidden,
            r.dialog_type == MessageDialogType::Error,
            r.title.is_none(),
            r.text@.len() == 0,
    {
        MessageDialog { hidden: true, dialog_type: MessageDialogType::Error, title: None, text: String::new() }
    }

    /// Handles a request: a message is shown; closing hides the dialog and, after a
    /// fatal message, asks the application to quit.
    pub fn update(&mut self, msg: MessageDialogInput) -> (r: Option<MessageDialogOutput>)
        ensures
            match msg {
                MessageDialogInput::Message(t, title, text) => {
                    &&& !final(self).hidden
                    &&& final(self).dialog_type == t
                    &&& final(self).title == title
                    &&& final(self).text == text
                    &&& r is None
                },
                MessageDialogInput::PrivateMessage(PrivateMsg::CreateReportButtonPressed) => {
                    &&& final(self).hidden == old(self).hidden
                    &&& final(self).dialog_type == old(self).dialog_type
                    &&& r == Some(MessageDialogOutput::CreateReport)
                },
                MessageDialogInput::PrivateMessage(PrivateMsg::CloseButtonPressed) => {
                    &&& final(self).hidden
                    &&& final(self).dialog_type == old(self).dialog_type
                    &&& r == (if old(self).dialog_type == MessageDialogType::Fatal {
                        Some(MessageDialogOutput::Quit)
                    } else {
                        None
                    })
                },
            },
    {
        match msg {
            MessageDialogInput::Message(t, title, text) => {
                self.title = title;
                self.dialog_type = t;
                self.text = text;
                self.hidden = false;
                None
            },
            MessageDialogInput::PrivateMessage(PrivateMsg::CreateReportButtonPressed) => Some(
                MessageDialogOutput::CreateReport,
            ),
            MessageDialogInput::PrivateMessage(PrivateMsg::CloseButtonPressed) => {
                self.hidden = true;
                if self.dialog_type == MessageDialogType::Fatal {
                    Some(MessageDialogOutput::Quit)
                } else {
                    None
                }
            },
        }
    }
}

} // verus!
