//! Messages exchanged with chat clients over the socket.

use vstd::prelude::*;

verus! {

/// A message that a client sends to the server.
#[derive(Debug)]
pub enum ClientMsg {
    SendMessage { to: String, content: String },
    /// Asks for the message history with another user.
    LoadHistory { with: String },
}

/// One message of a history reply.
#[derive(Debug, Clone)]
pub struct HistoryItem {
    pub from: String,
    pub content: String,
    /// `false` when the message was sent by the user who receives the reply.
    pub to_me: bool,
    pub created_at: String,
}

/// A message that the server sends to a client.
#[derive(Debug, Clone)]
pub enum ServerMsg {
    OnlineUsers { users: Vec<String> },
    NewMessage { from: String, content: String, to_me: bool, created_at: String },
    /// A batch of history messages.
    History { with: String, messages: Vec<HistoryItem> },
    System { content: String },
    Error { content: String },
}

/// Mathematical model of a [`ClientMsg`].
pub enum ClientMsgView {
    SendMessage { to: Seq<char>, content: Seq<char> },
    LoadHistory { with: Seq<char> },
}

/// Mathematical model of a [`HistoryItem`].
pub struct HistoryItemView {
    pub from: Seq<char>,
    pub content: Seq<char>,
    pub to_me: bool,
    pub created_at: Seq<char>,
}

/// Mathematical model of a [`ServerMsg`].
pub enum ServerMsgView {
    OnlineUsers { users: Seq<Seq<char>> },
    NewMessage { from: Seq<char>, content: Seq<char>, to_me: bool, created_at: Seq<char> },
    History { with: Seq<char>, messages: Seq<HistoryItemView> },
    System { content: Seq<char> },
    Error { content: Seq<char> },
}

/// The views of a vector of strings.
pub open spec fn strings_view(v: Seq<String>) -> Seq<Seq<char>> {
    v.map_values(|s: String| s@)
}

impl View for ClientMsg {
    type V = ClientMsgView;

    open spec fn view(&self) -> ClientMsgView {
        match self {
            ClientMsg::SendMessage { to, content } => ClientMsgView::SendMessage {
                to: to@,
                content: content@,
            },
            ClientMsg::LoadHistory { with } => ClientMsgView::LoadHistory { with: with@ },
        }
    }
}

impl View for HistoryItem {
    type V = HistoryItemView;

    open spec fn view(&self) -> HistoryItemView {
        HistoryItemView {
            from: self.from@,
            content: self.content@,
            to_me: self.to_me,
            created_at: self.created_at@,
        }
    }
}

impl View for ServerMsg {
    type V = ServerMsgView;

    open spec fn view(&self) -> ServerMsgView {
        match self {
            ServerMsg::OnlineUsers { users } => ServerMsgView::OnlineUsers {
                users: strings_view(users@),
            },
            ServerMsg::NewMessage { from, content, to_me, created_at } => ServerMsgView::NewMessage {
                from: from@,
                content: content@,
                to_me: *to_me,
                created_at: created_at@,
            },
            ServerMsg::History { with, messages } => ServerMsgView::History {
                with: with@,
                messages: messages@.map_values(|h: HistoryItem| h@),
            },
            ServerMsg::System { content } => ServerMsgView::System { content: content@ },
            ServerMsg::Error { content } => ServerMsgView::Error { content: content@ },
        }
    }
}

/// A copy of a list of names.
pub fn copy_strings(v: &Vec<String>) -> (r: Vec<String>)
    ensures
        strings_view(r@) == strings_view(v@),
{
    let mut r: Vec<String> = Vec::new();
    let mut i: usize = 0;
    while i < v.len()
        invariant
            i <= v.len(),
            r@.len() == i,
            forall|j: int| 0 <= j < i ==> #[trigger] r@[j]@ == v@[j]@,
        decreases v.len() - i,
    {
        r.push(v[i].clone());
        i = i + 1;
    }
    assert(strings_view(r@) =~= strings_view(v@));
    r
}

} // verus!
