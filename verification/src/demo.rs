//! The client program's screens: the sign-in form, then the lobby.
use vstd::prelude::*;

use crate::signin::{spec_default_server_addr, spec_empty_name_error, Message, Signin, ValidatedSignin};

verus! {

/// Which screen the client shows. The lobby's own state lives with the caller.
pub enum DemoApp {
    /// The sign-in form.
    Signin(Signin),
    /// The lobby, after a successful sign-in.
    Lobby,
}

/// The work a sign-in message calls for.
pub enum DemoAction<A> {
    /// Nothing beyond the form's own change.
    Nothing,
    /// The user signed in: open the lobby and connect with these details.
    Connect(ValidatedSignin<A>),
}

impl DemoApp {
    /// The client starts on an empty sign-in form.
    pub fn new() -> (r: DemoApp)
        ensures
            r matches DemoApp::Signin(form) && form.spec_name().len() == 0 && form.spec_error() is None
                && form.spec_server_addr() == spec_default_server_addr(),
            r matches DemoApp::Signin(form) && form.spec_server_addr() == "127.0.0.1:8000"@,
    {
        DemoApp::Signin(Signin::default())
    }

    /// Whether the lobby is shown: lobby messages go to it then, and are
    /// dropped while the form is shown.
    pub fn in_lobby(&self) -> (r: bool)
        ensures
            r <==> self is Lobby,
    {
        match self {
            DemoApp::Lobby => true,
            DemoApp::Signin(_) => false,
        }
    }

    /// Handles a message of the sign-in form. `server` is the outcome of
    /// parsing the form's server address at this moment. A submission that
    /// the form accepts opens the lobby; any other message, or a refused
    /// submission, is left to the form. In the lobby, form messages are
    /// dropped.
    pub fn on_signin<A>(&mut self, msg: Message, server: Result<A, String>) -> (r: DemoAction<A>)
        ensures
            *old(self) is Lobby ==> *final(self) is Lobby && r is Nothing,
            *old(self) matches DemoApp::Signin(form) ==> ({
                let submit = msg is Signin;
                let accepted = submit && server is Ok && form.spec_name().len() > 0;
                &&& accepted ==> *final(self) is Lobby && (r matches DemoAction::Connect(v)
                    && server == Ok::<A, String>(v.server) && v.name@ == form.spec_name())
                &&& !accepted ==> r is Nothing && (*final(self) matches DemoApp::Signin(form2)
                    && form2.spec_server_addr() == (match msg { Message::ServerAddr(a) => a@, _ => form.spec_server_addr() })
                    && form2.spec_name() == (match msg { Message::Name(n) => n@, _ => form.spec_name() })
                    && form2.spec_error() == (match msg {
                        Message::Error(e) => Some(e@),
                        Message::Signin => match server {
                            Err(e) => Some(e@),
                            Ok(_) => Some(spec_empty_name_error()),
                        },
                        _ => form.spec_error(),
                    }))
            }),
    {
        let mut screen = DemoApp::Lobby;
        std::mem::swap(&mut screen, self);
        match screen {
            DemoApp::Lobby => DemoAction::Nothing,
            DemoApp::Signin(mut form) => {
                match msg {
                    Message::Signin => {
                        match form.validate(server) {
                            Some(v) => DemoAction::Connect(v),
                            None => {
                                *self = DemoApp::Signin(form);
                                DemoAction::Nothing
                            },
                        }
                    },
                    _ => {
                        form.update(msg);
                        *self = DemoApp::Signin(form);
                        DemoAction::Nothing
                    },
                }
            },
        }
    }
}

} // verus!
