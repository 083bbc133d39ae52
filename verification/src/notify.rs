use vstd::prelude::*;
use vstd::string::StringExecFns;

verus! {

/// The push service, with the user and the application token.
pub struct PushOverNotify {
    url: String,
    user: String,
    token: String,
}

impl PushOverNotify {
    /// Where messages are posted.
    pub closed spec fn url(&self) -> Seq<char> {
        self.url@
    }

    pub closed spec fn user(&self) -> Seq<char> {
        self.user@
    }

    pub closed spec fn token(&self) -> Seq<char> {
        self.token@
    }

    pub fn new(user: String, token: String) -> (r: Self)
        ensures
            r.url() == "https://api.pushover.net/1/messages.json"@,
            r.user() == user@,
            r.token() == token@,
    {
        Self { url: "https://api.pushover.net/1/messages.json".to_owned(), user, token }
    }

    /// The address that `form` is posted to.
    pub fn endpoint(&self) -> (r: String)
        ensures
            r@ == self.url(),
    {
        self.url.clone()
    }

    /// The form that asks for one notification: token, user, title and
    /// message, each as given.
    pub fn form(&self, title: &str, message: &str) -> (r: String)
        ensures
            r@ == "token="@ + self.token() + "&user="@ + self.user() + "&title="@ + title@
                + "&message="@ + message@,
    {
        let mut content = "token=".to_owned();
        content.append(self.token.as_str());
        content.append("&user=");
        content.append(self.user.as_str());
        content.append("&title=");
        content.append(title);
        content.append("&message=");
        content.append(message);
        content
    }
}

} // verus!
