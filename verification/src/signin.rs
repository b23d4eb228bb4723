//! The sign-in form: server address and user name, checked before joining.
use vstd::prelude::*;

verus! {

/// Sign-in data that passed the checks; `A` is the parsed server address.
pub struct ValidatedSignin<A> {
    pub server: A,
    pub name: String,
}

/// Edits and submissions of the sign-in form.
#[derive(Clone, Debug)]
pub enum Message {
    /// The server address field now reads this.
    ServerAddr(String),
    /// The name field now reads this.
    Name(String),
    /// Show this error.
    Error(String),
    /// The user submits the form.
    Signin,
}

/// State of the sign-in form.
pub struct Signin {
    server_addr: String,
    name: String,
    error: Option<String>,
}

/// The text shown when the name is left empty.
pub open spec fn spec_empty_name_error() -> Seq<char> {
    "Fill in your name"@
}

/// The address offered before the user types one.
pub open spec fn spec_default_server_addr() -> Seq<char> {
    "127.0.0.1:8000"@
}

impl Signin {
    /// Text of the server address field.
    pub closed spec fn spec_server_addr(&self) -> Seq<char> {
        self.server_addr@
    }

    /// Text of the name field.
    pub closed spec fn spec_name(&self) -> Seq<char> {
        self.name@
    }

    /// The error shown, if any.
    pub closed spec fn spec_error(&self) -> Option<Seq<char>> {
        match self.error {
            Some(e) => Some(e@),
            None => None,
        }
    }

    /// Text of the server address field.
    pub fn server_addr(&self) -> (r: &str)
        ensures
            r@ == self.spec_server_addr(),
    {
        self.server_addr.as_str()
    }

    /// Text of the name field.
    pub fn name(&self) -> (r: &str)
        ensures
            r@ == self.spec_name(),
    {
        self.name.as_str()
    }

    /// The error shown, if any.
    pub fn error(&self) -> (r: Option<&str>)
        ensures
            r matches Some(e) ==> self.spec_error() == Some(e@),
            r is None <==> self.spec_error() is None,
    {
        match &self.error {
            Some(e) => Some(e.as_str()),
            None => None,
        }
    }

    /// Checks the form. `server` is the outcome of parsing the server address
    /// field: the parsed address, or the parser's error text. A parse error
    /// is shown and refused first; then an empty name is refused with a
    /// request to fill it in; otherwise the address and name are returned and
    /// the form is left as it is.
    pub fn validate<A>(&mut self, server: Result<A, String>) -> (r: Option<ValidatedSignin<A>>)
        ensures
            final(self).spec_server_addr() == old(self).spec_server_addr(),
            final(self).spec_name() == old(self).spec_name(),
            server matches Err(e) ==> r is None && final(self).spec_error() == Some(e@),
            server is Ok && old(self).spec_name().len() == 0 ==> r is None
                && final(self).spec_error() == Some(spec_empty_name_error()),
            server matches Ok(a) ==> (old(self).spec_name().len() > 0 ==> (r matches Some(v)
                && v.server == a && v.name@ == old(self).spec_name()
                && final(self).spec_error() == old(self).spec_error())),
    {
        let server = match server {
            Ok(server) => server,
            Err(err) => {
                self.error = Some(err);
                return None;
            },
        };
        if self.name.as_str().is_empty() {
            self.error = Some("Fill in your name".to_owned());
            return None;
        }
        Some(ValidatedSignin { server, name: self.name.clone() })
    }

    /// Applies an edit of the form; a submission changes nothing here.
    pub fn update(&mut self, msg: Message)
        ensures
            msg matches Message::ServerAddr(a) ==> final(self).spec_server_addr() == a@
                && final(self).spec_name() == old(self).spec_name()
                && final(self).spec_error() == old(self).spec_error(),
            msg matches Message::Name(n) ==> final(self).spec_name() == n@
                && final(self).spec_server_addr() == old(self).spec_server_addr()
                && final(self).spec_error() == old(self).spec_error(),
            msg matches Message::Error(e) ==> final(self).spec_error() == Some(e@)
                && final(self).spec_server_addr() == old(self).spec_server_addr()
                && final(self).spec_name() == old(self).spec_name(),
            msg is Signin ==> final(self).spec_server_addr() == old(self).spec_server_addr()
                && final(self).spec_name() == old(self).spec_name()
                && final(self).spec_error() == old(self).spec_error(),
    {
        match msg {
            Message::ServerAddr(new_addr) => self.server_addr = new_addr,
            Message::Name(new_name) => self.name = new_name,
            Message::Error(error) => self.error = Some(error),
            Message::Signin => {},
        }
    }
}

/// The texts the form shows on its own: the local server address it offers
/// first, and the request to fill in the name.
pub proof fn lemma_form_texts()
    ensures
        spec_default_server_addr() == "127.0.0.1:8000"@,
        spec_empty_name_error() == "Fill in your name"@,
{
}

impl Default for Signin {
    /// An empty form that offers the local server address.
    fn default() -> (r: Signin)
        ensures
            r.spec_server_addr() == spec_default_server_addr(),
            r.spec_server_addr() == "127.0.0.1:8000"@,
            r.spec_name().len() == 0,
            r.spec_error() is None,
    {
        Signin { server_addr: "127.0.0.1:8000".to_owned(), name: String::new(), error: None }
    }
}

} // verus!
