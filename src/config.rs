//! Settings read at startup: where the service is, the credential, and the
//! text size of the window.

use vstd::prelude::*;
use crate::protocol::{MessageAuth, MessageAuthView};

verus! {

/// The values read from the configuration file.
pub struct Configuration {
    server: String,
    pub text_size: u16,
    token: String,
}

/// Text size used when none is configured.
pub const DEFAULT_TEXT_SIZE: u16 = 16;

impl Configuration {
    pub fn new(server: String, text_size: u16, token: String) -> (r: Configuration)
        ensures
            r.server_view() == server@,
            r.size_view() == text_size,
            r.token_view() == token@,
    {
        Configuration { server, text_size, token }
    }

    pub closed spec fn server_view(&self) -> Seq<char> {
        self.server@
    }

    pub closed spec fn size_view(&self) -> u16 {
        self.text_size
    }

    pub closed spec fn token_view(&self) -> Seq<char> {
        self.token@
    }

    pub fn server(&self) -> (r: &String)
        ensures
            r@ == self.server_view(),
    {
        &self.server
    }

    pub fn token(&self) -> (r: &String)
        ensures
            r@ == self.token_view(),
    {
        &self.token
    }

    /// The credential that this configuration names.
    pub fn auth(&self) -> (r: MessageAuth)
        ensures
            r@ == (MessageAuthView::Google { token: self.token_view() }),
    {
        MessageAuth::Google { token: self.token.clone() }
    }
}

impl Default for Configuration {
    fn default() -> (r: Configuration)
        ensures
            r.server_view() == "server.mattkc.com"@,
            r.size_view() == DEFAULT_TEXT_SIZE,
            r.token_view() == "Your token here"@,
    {
        Configuration {
            server: "server.mattkc.com".to_string(),
            text_size: DEFAULT_TEXT_SIZE,
            token: "Your token here".to_string(),
        }
    }
}

} // verus!
