//! The online hub: who is connected, and which messages go to whom when users
//! join, leave, chat and ask for history.
//!
//! The hub decides; the caller owns the connections and hands each
//! [`Delivery`] to the connection of its recipient.

use vstd::prelude::*;
use crate::db::StoredMessage;
use crate::protocol::{
    copy_strings, strings_view, HistoryItem, HistoryItemView, ServerMsg, ServerMsgView,
};

verus! {

/// A message addressed to one connected user.
#[derive(Debug)]
pub struct Delivery {
    pub to: String,
    pub msg: ServerMsg,
}

/// Mathematical model of a [`Delivery`].
pub struct DeliveryView {
    pub to: Seq<char>,
    pub msg: ServerMsgView,
}

impl View for Delivery {
    type V = DeliveryView;

    open spec fn view(&self) -> DeliveryView {
        DeliveryView { to: self.to@, msg: self.msg@ }
    }
}

/// The views of a sequence of deliveries.
pub open spec fn deliveries_view(d: Seq<Delivery>) -> Seq<DeliveryView> {
    d.map_values(|x: Delivery| x@)
}

/// The current list of online users, sent to each of them.
pub open spec fn online_broadcast(users: Seq<Seq<char>>) -> Seq<DeliveryView> {
    Seq::new(
        users.len(),
        |i: int| DeliveryView { to: users[i], msg: ServerMsgView::OnlineUsers { users } },
    )
}

/// A system notice with `content`, sent to each of `targets`.
pub open spec fn notices(targets: Seq<Seq<char>>, content: Seq<char>) -> Seq<DeliveryView> {
    Seq::new(
        targets.len(),
        |i: int| DeliveryView { to: targets[i], msg: ServerMsgView::System { content } },
    )
}

/// The notice that `name` came online.
pub open spec fn joined_notice(name: Seq<char>) -> Seq<char> {
    name + " 上线了"@
}

/// The notice that `name` went offline.
pub open spec fn left_notice(name: Seq<char>) -> Seq<char> {
    name + " 下线了"@
}

/// The error told to a sender whose recipient `name` could not be reached.
pub open spec fn offline_error(name: Seq<char>) -> Seq<char> {
    name + " 不在线"@
}

/// `users` without `name`.
pub open spec fn remove_name(users: Seq<Seq<char>>, name: Seq<char>) -> Seq<Seq<char>> {
    if users.contains(name) {
        users.remove(users.index_of(name))
    } else {
        users
    }
}

/// The chat message as the recipient receives it.
pub open spec fn incoming(
    from: Seq<char>,
    to: Seq<char>,
    content: Seq<char>,
    created_at: Seq<char>,
) -> DeliveryView {
    DeliveryView {
        to,
        msg: ServerMsgView::NewMessage { from, content, to_me: true, created_at },
    }
}

/// What the sender of a chat message is told once delivery was attempted:
/// a copy of its own message when it was delivered, an error otherwise.
pub open spec fn sender_feedback(
    from: Seq<char>,
    to: Seq<char>,
    content: Seq<char>,
    created_at: Seq<char>,
    delivered: bool,
) -> DeliveryView {
    if delivered {
        DeliveryView {
            to: from,
            msg: ServerMsgView::NewMessage { from, content, to_me: false, created_at },
        }
    } else {
        DeliveryView { to: from, msg: ServerMsgView::Error { content: offline_error(to) } }
    }
}

/// A stored message as it appears in the history shown to `me`.
pub open spec fn history_item(me: Seq<char>, m: crate::db::StoredMessageView) -> HistoryItemView {
    HistoryItemView {
        from: m.from_user,
        content: m.content,
        to_me: m.from_user != me,
        created_at: m.created_at,
    }
}

/// The history reply for `me` about the conversation with `with`.
pub open spec fn history_reply_spec(
    me: Seq<char>,
    with: Seq<char>,
    rows: Seq<StoredMessage>,
) -> ServerMsgView {
    ServerMsgView::History {
        with,
        messages: rows.map_values(|m: StoredMessage| history_item(me, m@)),
    }
}

/// The set of connected users, in the order they came online.
///
/// The hub decides who is online and who receives what; the connections
/// themselves (the senders a map would key by name) belong to the caller, which
/// keys them by the same names. So the hub keeps only the names, as a list
/// whose type invariant forbids duplicates: the key set of such a map, with the
/// arrival order that the online lists report.
pub struct Hub {
    users: Vec<String>,
}

impl View for Hub {
    type V = Seq<Seq<char>>;

    closed spec fn view(&self) -> Seq<Seq<char>> {
        strings_view(self.users@)
    }
}

/// The whole list of deliveries that announces the current online list.
fn broadcast_online(users: &Vec<String>) -> (r: Vec<Delivery>)
    ensures
        deliveries_view(r@) == online_broadcast(strings_view(users@)),
{
    let mut r: Vec<Delivery> = Vec::new();
    let mut i: usize = 0;
    while i < users.len()
        invariant
            i <= users.len(),
            r@.len() == i,
            forall|j: int|
                0 <= j < i ==> #[trigger] r@[j]@ == online_broadcast(strings_view(users@))[j],
        decreases users.len() - i,
    {
        let list = copy_strings(users);
        r.push(Delivery { to: users[i].clone(), msg: ServerMsg::OnlineUsers { users: list } });
        i = i + 1;
    }
    assert(deliveries_view(r@) =~= online_broadcast(strings_view(users@)));
    r
}

/// Appends a system notice for each of the first `count` users to `out`.
fn push_notices(out: &mut Vec<Delivery>, users: &Vec<String>, count: usize, content: &String)
    requires
        count <= users@.len(),
    ensures
        deliveries_view(final(out)@) == deliveries_view(old(out)@) + notices(
            strings_view(users@).take(count as int),
            content@,
        ),
{
    let ghost start = deliveries_view(out@);
    let ghost want = notices(strings_view(users@).take(count as int), content@);
    let mut i: usize = 0;
    while i < count
        invariant
            i <= count <= users@.len(),
            start == deliveries_view(old(out)@),
            want == notices(strings_view(users@).take(count as int), content@),
            deliveries_view(out@) =~= start + want.take(i as int),
        decreases count - i,
    {
        let ghost prev = deliveries_view(out@);
        let d = Delivery { to: users[i].clone(), msg: ServerMsg::System { content: content.clone() } };
        assert(d@ == want[i as int]);
        out.push(d);
        assert(deliveries_view(out@) =~= prev.push(want[i as int]));
        assert(want.take(i + 1) =~= want.take(i as int).push(want[i as int]));
        i = i + 1;
    }
    assert(want.take(count as int) =~= want);
}

impl Hub {
    /// Nobody is online twice.
    #[verifier::type_invariant]
    spec fn unique_names(self) -> bool {
        strings_view(self.users@).no_duplicates()
    }

    /// An empty hub.
    pub fn new() -> (h: Hub)
        ensures
            h@ == Seq::<Seq<char>>::empty(),
    {
        let h = Hub { users: Vec::new() };
        assert(h@ =~= Seq::<Seq<char>>::empty());
        h
    }

    /// Whether `name` is online.
    pub fn is_online(&self, name: &str) -> (b: bool)
        ensures
            b == self@.contains(name@),
    {
        let key = name.to_owned();
        let mut i: usize = 0;
        while i < self.users.len()
            invariant
                i <= self.users@.len(),
                key@ == name@,
                forall|j: int| 0 <= j < i ==> self@[j] != name@,
            decreases self.users.len() - i,
        {
            if self.users[i] == key {
                assert(self@[i as int] == name@);
                return true;
            }
            i = i + 1;
        }
        false
    }

    /// The names of the online users.
    pub fn online_list(&self) -> (r: Vec<String>)
        ensures
            strings_view(r@) == self@,
            self@.no_duplicates(),
    {
        proof {
            use_type_invariant(self);
        }
        copy_strings(&self.users)
    }

    /// Registers `name` as online. A name that is already online is refused
    /// (`None`, hub unchanged). Otherwise everyone, the newcomer included,
    /// receives the new online list, and everyone else is told of the arrival.
    pub fn join(&mut self, name: String) -> (r: Option<Vec<Delivery>>)
        ensures
            final(self)@.no_duplicates(),
            old(self)@.contains(name@) ==> r is None && final(self)@ == old(self)@,
            !old(self)@.contains(name@) ==> {
                &&& final(self)@ == old(self)@.push(name@)
                &&& (r matches Some(d) && deliveries_view(d@) == online_broadcast(final(self)@)
                    + notices(old(self)@, joined_notice(name@)))
            },
    {
        proof {
            use_type_invariant(&*self);
        }
        if self.is_online(name.as_str()) {
            return None;
        }
        let ghost before = self@;
        let mut notice = name.clone();
        notice.append(" 上线了");
        let mut users: Vec<String> = Vec::new();
        std::mem::swap(&mut users, &mut self.users);
        users.push(name);
        assert(strings_view(users@) =~= before.push(name@)) by {
            assert(strings_view(users@) =~= strings_view(users@.drop_last()).push(users@.last()@));
        }
        self.users = users;
        let mut out = broadcast_online(&self.users);
        let count = self.users.len() - 1;
        push_notices(&mut out, &self.users, count, &notice);
        assert(strings_view(self.users@).take(count as int) =~= before);
        Some(out)
    }

    /// Removes `name` from the online users. Everyone still online receives
    /// the new online list and is told that `name` left.
    pub fn leave(&mut self, name: &str) -> (r: Vec<Delivery>)
        ensures
            final(self)@.no_duplicates(),
            final(self)@ == remove_name(old(self)@, name@),
            deliveries_view(r@) == online_broadcast(final(self)@) + notices(
                final(self)@,
                left_notice(name@),
            ),
    {
        proof {
            use_type_invariant(&*self);
        }
        let ghost before = self@;
        let key = name.to_owned();
        let mut i: usize = 0;
        while i < self.users.len()
            invariant
                i <= self.users@.len(),
                key@ == name@,
                self@ == before,
                forall|j: int| 0 <= j < i ==> self@[j] != name@,
            ensures
                i <= self.users@.len(),
                self@ == before,
                forall|j: int| 0 <= j < i ==> self@[j] != name@,
                i < self.users@.len() ==> self@[i as int] == name@,
            decreases self.users.len() - i,
        {
            if self.users[i] == key {
                break;
            }
            i = i + 1;
        }
        if i < self.users.len() {
            assert(self@[i as int] == name@);
            assert(before.contains(name@));
            assert(before.index_of(name@) == i as int);
            let mut users: Vec<String> = Vec::new();
            std::mem::swap(&mut users, &mut self.users);
            users.remove(i);
            assert(strings_view(users@) =~= before.remove(i as int));
            self.users = users;
        } else {
            assert(!before.contains(name@));
        }
        let mut notice = name.to_owned();
        notice.append(" 下线了");
        let mut out = broadcast_online(&self.users);
        let count = self.users.len();
        push_notices(&mut out, &self.users, count, &notice);
        assert(strings_view(self.users@).take(count as int) =~= self@);
        out
    }

    /// The first step of sending a chat message: the message for the
    /// recipient, if the recipient is online; `None` (nothing delivered) otherwise.
    pub fn deliver(&self, from: &str, to: &str, content: &str, created_at: &str) -> (r: Option<
        Delivery,
    >)
        ensures
            self@.contains(to@) ==> (r matches Some(d) && d@ == incoming(
                from@,
                to@,
                content@,
                created_at@,
            )),
            !self@.contains(to@) ==> r is None,
    {
        if self.is_online(to) {
            Some(
                Delivery {
                    to: to.to_owned(),
                    msg: ServerMsg::NewMessage {
                        from: from.to_owned(),
                        content: content.to_owned(),
                        to_me: true,
                        created_at: created_at.to_owned(),
                    },
                },
            )
        } else {
            None
        }
    }

    /// The second step of sending a chat message: what the sender is told,
    /// given whether the message reached the recipient.
    pub fn after_delivery(
        from: &str,
        to: &str,
        content: &str,
        created_at: &str,
        delivered: bool,
    ) -> (d: Delivery)
        ensures
            d@ == sender_feedback(from@, to@, content@, created_at@, delivered),
    {
        if delivered {
            Delivery {
                to: from.to_owned(),
                msg: ServerMsg::NewMessage {
                    from: from.to_owned(),
                    content: content.to_owned(),
                    to_me: false,
                    created_at: created_at.to_owned(),
                },
            }
        } else {
            let mut text = to.to_owned();
            text.append(" 不在线");
            Delivery { to: from.to_owned(), msg: ServerMsg::Error { content: text } }
        }
    }

    /// The history reply for `me` about the conversation with `with`, from the
    /// stored rows in the order given.
    pub fn history_reply(me: &str, with: &str, rows: &Vec<StoredMessage>) -> (m: ServerMsg)
        ensures
            m@ == history_reply_spec(me@, with@, rows@),
    {
        let me_owned = me.to_owned();
        let mut items: Vec<HistoryItem> = Vec::new();
        let mut i: usize = 0;
        while i < rows.len()
            invariant
                i <= rows@.len(),
                me_owned@ == me@,
                items@.len() == i,
                forall|j: int|
                    0 <= j < i ==> #[trigger] items@[j]@ == history_item(me@, rows@[j]@),
            decreases rows.len() - i,
        {
            let row = &rows[i];
            let mine = row.from_user == me_owned;
            items.push(
                HistoryItem {
                    from: row.from_user.clone(),
                    content: row.content.clone(),
                    to_me: !mine,
                    created_at: row.created_at.clone(),
                },
            );
            i = i + 1;
        }
        let m = ServerMsg::History { with: with.to_owned(), messages: items };
        assert(items@.map_values(|h: HistoryItem| h@) =~= rows@.map_values(
            |r: StoredMessage| history_item(me@, r@),
        ));
        m
    }
}

/// Leaving undoes joining: a user who joins and then leaves restores the
/// online list it found.
pub proof fn leave_undoes_join(users: Seq<Seq<char>>, name: Seq<char>)
    requires
        users.no_duplicates(),
        !users.contains(name),
    ensures
        remove_name(users.push(name), name) == users,
{
    let after = users.push(name);
    assert(after[users.len() as int] == name);
    assert(after.contains(name));
    let k = after.index_of(name);
    assert(0 <= k < after.len() && after[k] == name);
    if k < users.len() {
        assert(users[k] == name);
        assert(false);
    }
    assert(after.remove(k) =~= users);
}

/// The online list reaches every online user exactly once, and nobody else.
pub proof fn online_broadcast_reaches_each_user_once(users: Seq<Seq<char>>)
    requires
        users.no_duplicates(),
    ensures
        forall|u: Seq<char>|
            users.contains(u) <==> exists|i: int|
                0 <= i < online_broadcast(users).len() && #[trigger] online_broadcast(users)[i].to
                    == u,
        forall|i: int, j: int|
            0 <= i < online_broadcast(users).len() && 0 <= j < online_broadcast(users).len()
                && online_broadcast(users)[i].to == online_broadcast(users)[j].to ==> i == j,
{
    let b = online_broadcast(users);
    assert forall|u: Seq<char>| users.contains(u) implies exists|i: int|
        0 <= i < b.len() && #[trigger] b[i].to == u by {
        let i = users.index_of(u);
        assert(b[i].to == u);
    }
}

/// A newcomer is not told of its own arrival: the arrival notices go to the
/// users who were online before, all of them other than the newcomer.
pub proof fn arrival_notice_skips_newcomer(users: Seq<Seq<char>>, name: Seq<char>)
    requires
        !users.contains(name),
    ensures
        forall|i: int|
            0 <= i < notices(users, joined_notice(name)).len() ==> #[trigger] notices(
                users,
                joined_notice(name),
            )[i].to != name,
{
    assert forall|i: int| 0 <= i < notices(users, joined_notice(name)).len() implies #[trigger] notices(
        users,
        joined_notice(name),
    )[i].to != name by {
        assert(notices(users, joined_notice(name))[i].to == users[i]);
    }
}

/// A join touches only the joining name: every other user is online after it
/// exactly when it was online before.
pub proof fn join_touches_only_its_name(users: Seq<Seq<char>>, name: Seq<char>, other: Seq<char>)
    requires
        other != name,
    ensures
        users.push(name).contains(other) == users.contains(other),
        users.push(name).contains(name),
{
    let after = users.push(name);
    assert(after[users.len() as int] == name);
    if users.contains(other) {
        let i = users.index_of(other);
        assert(after[i] == other);
    }
    if after.contains(other) {
        let i = after.index_of(other);
        assert(i < users.len());
        assert(users[i] == other);
    }
}

/// A leave touches only the leaving name: afterwards that name is offline,
/// and every other user is online exactly when it was online before.
pub proof fn leave_touches_only_its_name(users: Seq<Seq<char>>, name: Seq<char>, other: Seq<char>)
    requires
        users.no_duplicates(),
        other != name,
    ensures
        !remove_name(users, name).contains(name),
        remove_name(users, name).contains(other) == users.contains(other),
{
    let after = remove_name(users, name);
    if users.contains(name) {
        let k = users.index_of(name);
        assert(users[k] == name);
        if after.contains(name) {
            let i = after.index_of(name);
            if i < k {
                assert(users[i] == name);
            } else {
                assert(users[i + 1] == name);
            }
        }
        if users.contains(other) {
            let j = users.index_of(other);
            if j < k {
                assert(after[j] == other);
            } else {
                assert(j != k);
                assert(after[j - 1] == other);
            }
        }
        if after.contains(other) {
            let i = after.index_of(other);
            if i < k {
                assert(users[i] == other);
            } else {
                assert(users[i + 1] == other);
            }
        }
    }
}

/// Everyone reached by an online broadcast sees the whole online list, the
/// same one for every recipient: nobody is left out of anybody's list.
pub proof fn online_broadcast_carries_whole_list(users: Seq<Seq<char>>)
    ensures
        forall|i: int|
            0 <= i < users.len() ==> (#[trigger] online_broadcast(users)[i]).msg
                == (ServerMsgView::OnlineUsers { users }),
        forall|i: int, u: Seq<char>|
            #![trigger online_broadcast(users)[i], users.contains(u)]
            0 <= i < users.len() && users.contains(u) ==> (online_broadcast(users)[i].msg
                matches ServerMsgView::OnlineUsers { users: l } && l.contains(u)),
{
}

/// The copy a sender gets of a delivered message is the message the recipient
/// got, with the same sender, text and timestamp, marked as not addressed to
/// the sender; an undelivered message is answered with an error to the sender.
pub proof fn sender_copy_matches_delivered_message(
    from: Seq<char>,
    to: Seq<char>,
    content: Seq<char>,
    created_at: Seq<char>,
)
    ensures
        sender_feedback(from, to, content, created_at, true).to == from,
        sender_feedback(from, to, content, created_at, true).msg == (ServerMsgView::NewMessage {
            from,
            content,
            to_me: false,
            created_at,
        }),
        incoming(from, to, content, created_at).to == to,
        incoming(from, to, content, created_at).msg == (ServerMsgView::NewMessage {
            from,
            content,
            to_me: true,
            created_at,
        }),
        sender_feedback(from, to, content, created_at, false).to == from,
        (sender_feedback(from, to, content, created_at, false).msg is Error),
{
}

/// The history reply keeps the rows in the order given, one item per row, and
/// each item carries that row's sender, text and timestamp; it is marked as
/// addressed to the requester exactly when someone else sent it.
pub proof fn history_items_follow_rows(me: Seq<char>, with: Seq<char>, rows: Seq<StoredMessage>)
    ensures
        (history_reply_spec(me, with, rows) matches ServerMsgView::History { with: w, messages: items }
            && w == with && items.len() == rows.len() && (forall|i: int|
            0 <= i < rows.len() ==> (#[trigger] items[i]).from == rows[i].from_user@
                && items[i].content == rows[i].content@ && items[i].created_at
                == rows[i].created_at@ && items[i].to_me == (rows[i].from_user@ != me))),
{
}

} // verus!
