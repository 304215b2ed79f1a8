use vstd::prelude::*;

verus! {

/// A message of the chat service: its recipient and its Markdown text.
#[derive(Clone, Debug, PartialEq)]
pub struct Message {
    pub to_person_email: String,
    pub markdown: String,
}

impl Message {
    pub fn new(to_person_email: String, markdown: String) -> (r: Self)
        ensures
            r.to_person_email == to_person_email,
            r.markdown == markdown,
    {
        Message { to_person_email, markdown }
    }
}

/// Credentials for the chat service, and the link that each message may end with.
#[derive(Clone, Debug)]
pub struct WebexClient {
    pub access_token: String,
    pub whoami_link: Option<String>,
}

/// The Markdown text of a message as it is sent: with the "who am I" link
/// appended where one is configured.
pub open spec fn outgoing_markdown(markdown: Seq<char>, whoami_link: Option<String>) -> Seq<char> {
    match whoami_link {
        Some(link) => markdown + " ([who am I?]("@ + link@ + "))"@,
        None => markdown,
    }
}

impl WebexClient {
    pub fn new(access_token: String, whoami_link: Option<String>) -> (r: Self)
        ensures
            r.access_token == access_token,
            r.whoami_link == whoami_link,
    {
        Self { access_token, whoami_link }
    }

    /// The message as it is to be sent.
    pub fn outgoing_message(&self, msg: Message) -> (r: Message)
        ensures
            r.to_person_email == msg.to_person_email,
            r.markdown@ == outgoing_markdown(msg.markdown@, self.whoami_link),
    {
        let mut msg = msg;
        if let Some(link) = &self.whoami_link {
            msg.markdown.append(" ([who am I?](");
            msg.markdown.append(link.as_str());
            msg.markdown.append("))");
        }
        msg
    }
}

} // verus!
