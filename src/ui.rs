//! Page selectors and routes of the front-end.

use vstd::prelude::*;

verus! {

/// Which half of the chat page is shown.
#[derive(Clone, Copy, Debug, PartialEq, Eq, Structural)]
pub enum ChatPage {
    Room,
    Friend,
}

/// The pages of the application.
#[derive(Clone, Copy, Debug, PartialEq, Eq, Structural)]
pub enum Route {
    Chat,
    Register,
    Login,
    NotFound,
}

/// The properties of the login dialog: none.
#[derive(Clone, Copy, Debug, PartialEq, Eq, Structural)]
pub struct LoginModalProps {}

} // verus!
