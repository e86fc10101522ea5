use vstd::prelude::*;

use std::path::PathBuf;

verus! {

/// A path of the file system.
#[verifier::external_type_specification]
#[verifier::external_body]
pub struct ExPathBuf(PathBuf);

/// `PathBuf::clone`: a copy of the path.
#[verifier::external_body]
pub(crate) fn clone_path(p: &PathBuf) -> (r: PathBuf)
    ensures
        r == *p,
{
    p.clone()
}

/// The state of the whole application: the directory it works in, the
/// messages it shows, and whether it should stop.
pub struct ApplicationState {
    current_path: PathBuf,
    info_message: Option<String>,
    warning_message: Option<String>,
    error_message: Option<String>,
    should_quit: bool,
}

/// The value of an [`ApplicationState`].
pub struct ApplicationStateView {
    pub current_path: PathBuf,
    pub info_message: Option<Seq<char>>,
    pub warning_message: Option<Seq<char>>,
    pub error_message: Option<Seq<char>>,
    pub should_quit: bool,
}

/// The characters of an optional message.
pub open spec fn message_view(m: Option<String>) -> Option<Seq<char>> {
    match m {
        Some(s) => Some(s@),
        None => None,
    }
}

impl View for ApplicationState {
    type V = ApplicationStateView;

    closed spec fn view(&self) -> ApplicationStateView {
        ApplicationStateView {
            current_path: self.current_path,
            info_message: message_view(self.info_message),
            warning_message: message_view(self.warning_message),
            error_message: message_view(self.error_message),
            should_quit: self.should_quit,
        }
    }
}

fn clone_message(m: &Option<String>) -> (r: Option<String>)
    ensures
        message_view(r) == message_view(*m),
{
    match m {
        Some(s) => Some(s.clone()),
        None => None,
    }
}

impl ApplicationState {
    /// A state working in `current_path`, with no message, that should not stop.
    pub fn new(current_path: PathBuf) -> (r: Self)
        ensures
            r@.current_path == current_path,
            r@.info_message is None,
            r@.warning_message is None,
            r@.error_message is None,
            !r@.should_quit,
    {
        ApplicationState {
            current_path,
            info_message: None,
            warning_message: None,
            error_message: None,
            should_quit: false,
        }
    }

    pub fn set_should_quit(&mut self, flag: bool)
        ensures
            final(self)@ == (ApplicationStateView { should_quit: flag, ..old(self)@ }),
    {
        self.should_quit = flag;
    }

    pub fn get_should_quit(&mut self) -> (r: &bool)
        ensures
            *r == old(self)@.should_quit,
            final(self)@ == old(self)@,
    {
        &self.should_quit
    }

    pub fn get_current_path(&self) -> (r: &PathBuf)
        ensures
            *r == self@.current_path,
    {
        &self.current_path
    }

    pub fn set_current_path(&mut self, path_buf: &PathBuf)
        ensures
            final(self)@ == (ApplicationStateView { current_path: *path_buf, ..old(self)@ }),
    {
        self.current_path = clone_path(path_buf);
    }

    pub fn set_info_message(&mut self, message: &str)
        ensures
            final(self)@ == (ApplicationStateView { info_message: Some(message@), ..old(self)@ }),
    {
        broadcast use vstd::string::group_string_axioms;

        self.info_message = Some(message.to_string());
    }

    pub fn set_warning_message(&mut self, message: &str)
        ensures
            final(self)@ == (ApplicationStateView { warning_message: Some(message@), ..old(self)@ }),
    {
        broadcast use vstd::string::group_string_axioms;

        self.warning_message = Some(message.to_string());
    }

    pub fn set_error_message(&mut self, message: &str)
        ensures
            final(self)@ == (ApplicationStateView { error_message: Some(message@), ..old(self)@ }),
    {
        broadcast use vstd::string::group_string_axioms;

        self.error_message = Some(message.to_string());
    }

    pub fn reset_info_message(&mut self)
        ensures
            final(self)@ == (ApplicationStateView { info_message: None, ..old(self)@ }),
    {
        self.info_message = None;
    }

    pub fn reset_warning_message(&mut self)
        ensures
            final(self)@ == (ApplicationStateView { warning_message: None, ..old(self)@ }),
    {
        self.warning_message = None;
    }

    pub fn reset_error_message(&mut self)
        ensures
            final(self)@ == (ApplicationStateView { error_message: None, ..old(self)@ }),
    {
        self.error_message = None;
    }

    pub fn info_message(&self) -> (r: Option<String>)
        ensures
            message_view(r) == self@.info_message,
    {
        clone_message(&self.info_message)
    }

    pub fn warning_message(&self) -> (r: Option<String>)
        ensures
            message_view(r) == self@.warning_message,
    {
        clone_message(&self.warning_message)
    }

    pub fn error_message(&self) -> (r: Option<String>)
        ensures
            message_view(r) == self@.error_message,
    {
        clone_message(&self.error_message)
    }
}

/// A call that changes the messages of an [`ApplicationState`].
pub enum MessageChange {
    SetInfo(Seq<char>),
    ResetInfo,
    SetWarning(Seq<char>),
    ResetWarning,
    SetError(Seq<char>),
    ResetError,
}

/// The state after one such call, as its `ensures` states it.
pub open spec fn message_changed(v: ApplicationStateView, c: MessageChange) -> ApplicationStateView {
    match c {
        MessageChange::SetInfo(m) => ApplicationStateView { info_message: Some(m), ..v },
        MessageChange::ResetInfo => ApplicationStateView { info_message: None, ..v },
        MessageChange::SetWarning(m) => ApplicationStateView { warning_message: Some(m), ..v },
        MessageChange::ResetWarning => ApplicationStateView { warning_message: None, ..v },
        MessageChange::SetError(m) => ApplicationStateView { error_message: Some(m), ..v },
        MessageChange::ResetError => ApplicationStateView { error_message: None, ..v },
    }
}

/// The state after such calls, made in order.
pub open spec fn messages_changed(v: ApplicationStateView, cs: Seq<MessageChange>) -> ApplicationStateView
    decreases cs.len(),
{
    if cs.len() == 0 {
        v
    } else {
        message_changed(messages_changed(v, cs.drop_last()), cs.last())
    }
}

/// A warning stays what the last call that set it made it, whatever is done
/// to the info and error messages after it; each message is kept apart from
/// the others.
pub proof fn law_warning_survives_other_messages(v: ApplicationStateView, m: Seq<char>, cs: Seq<MessageChange>)
    requires
        forall|i: int|
            0 <= i < cs.len() ==> !(#[trigger] cs[i] is SetWarning) && !(cs[i] is ResetWarning),
    ensures
        messages_changed(message_changed(v, MessageChange::SetWarning(m)), cs).warning_message == Some(m),
        messages_changed(message_changed(v, MessageChange::SetWarning(m)), cs).current_path == v.current_path,
        messages_changed(message_changed(v, MessageChange::SetWarning(m)), cs).should_quit == v.should_quit,
    decreases cs.len(),
{
    if cs.len() > 0 {
        law_warning_survives_other_messages(v, m, cs.drop_last());
        assert(!(cs[cs.len() - 1] is SetWarning));
    }
}

/// The lists whose selection the application keeps.
#[derive(Clone, Copy, PartialEq, Eq, Structural, Debug, Hash)]
pub enum ListStateType {
    CreateGlyph,
    OpenGlyph,
    Glyph,
}

#[derive(Clone, Copy, PartialEq, Eq, Structural, Debug, Hash)]
pub enum DialogStateType {
    CreateGlyphInfo,
}

pub struct ViewState {}

} // verus!
