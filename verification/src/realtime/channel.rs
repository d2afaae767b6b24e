//! Who listens to which channel.

use vstd::prelude::*;

use crate::directory::Directory;
use crate::error::H3Error;

verus! {

/// How many messages or events wait for their receiver before the sender has to wait.
pub const QUEUE_LEN: usize = 256;

/// The members of every channel. A member is known by its connection and reached through
/// a subscriber of type `S`. A channel exists as long as it has a member.
pub struct RealtimeChannel<S> {
    channels: Directory<Directory<S>>,
}

/// What each channel holds: its members, and how each is reached.
pub type Channels<S> = Map<Seq<char>, Map<Seq<char>, S>>;

impl<S> View for RealtimeChannel<S> {
    type V = Channels<S>;

    closed spec fn view(&self) -> Channels<S> {
        self.channels@.map_values(|members: Directory<S>| members@)
    }
}

/// The members of a channel; none where there is no such channel.
pub open spec fn members_of<S>(channels: Channels<S>, channel: Seq<char>) -> Map<Seq<char>, S> {
    if channels.contains_key(channel) {
        channels[channel]
    } else {
        Map::empty()
    }
}

/// The channels once a connection has joined one of them.
pub open spec fn subscribed<S>(
    channels: Channels<S>,
    channel: Seq<char>,
    conn_id: Seq<char>,
    subscriber: S,
) -> Channels<S> {
    channels.insert(channel, members_of(channels, channel).insert(conn_id, subscriber))
}

/// The channels once a connection has left one of them.
pub open spec fn unsubscribed<S>(
    channels: Channels<S>,
    channel: Seq<char>,
    conn_id: Seq<char>,
) -> Channels<S> {
    let members = members_of(channels, channel).remove(conn_id);
    if members == Map::<Seq<char>, S>::empty() {
        channels.remove(channel)
    } else {
        channels.insert(channel, members)
    }
}

/// The connections that a message on a channel goes to.
pub open spec fn recipients<S>(
    channels: Channels<S>,
    channel: Seq<char>,
    exclude: Option<Seq<char>>,
) -> Set<Seq<char>> {
    match exclude {
        Some(conn_id) => members_of(channels, channel).dom().remove(conn_id),
        None => members_of(channels, channel).dom(),
    }
}

/// No channel is without a member.
pub open spec fn no_empty_channel<S>(channels: Channels<S>) -> bool {
    forall|channel: Seq<char>| #[trigger]
        channels.contains_key(channel) ==> channels[channel] != Map::<Seq<char>, S>::empty()
}

/// The view of an optional name.
pub open spec fn optional_name(name: Option<&str>) -> Option<Seq<char>> {
    match name {
        Some(s) => Some(s@),
        None => None,
    }
}

/// The connections among the targets of a broadcast.
pub open spec fn target_names<'a, S>(targets: Seq<(&'a String, &'a S)>) -> Seq<Seq<char>> {
    Seq::new(targets.len(), |i: int| targets[i].0@)
}

/// Whether a message on a channel goes to some targets: to every recipient once, each reached
/// as it asked to be, and to nobody else.
pub open spec fn goes_to<'a, S>(
    channels: Channels<S>,
    channel: Seq<char>,
    exclude: Option<Seq<char>>,
    targets: Seq<(&'a String, &'a S)>,
) -> bool {
    &&& target_names(targets).no_duplicates()
    &&& target_names(targets).to_set() == recipients(channels, channel, exclude)
    &&& forall|i: int|
        0 <= i < targets.len() ==> *(#[trigger] targets[i]).1 == channels[channel][targets[i].0@]
}

/// The texts of some strings.
pub open spec fn texts(strings: Seq<String>) -> Seq<Seq<char>> {
    strings.map_values(|s: String| s@)
}

/// Picking some out of distinct names leaves them distinct.
proof fn lemma_filter(names: Seq<Seq<char>>, wanted: spec_fn(Seq<char>) -> bool)
    requires
        names.no_duplicates(),
    ensures
        names.filter(wanted).no_duplicates(),
        forall|n: Seq<char>| #[trigger]
            names.filter(wanted).contains(n) == (names.contains(n) && wanted(n)),
    decreases names.len(),
{
    reveal(Seq::filter);
    if names.len() > 0 {
        let rest = names.drop_last();
        let last = names.last();
        lemma_filter(rest, wanted);
        assert(!rest.contains(last));
        assert(names.filter(wanted).no_duplicates()) by {
            let kept = rest.filter(wanted);
            let all = names.filter(wanted);
            assert(!kept.contains(last));
            assert forall|a: int, b: int|
                0 <= a < all.len() && 0 <= b < all.len() && a != b implies all[a] != all[b] by {
                if a < kept.len() {
                    assert(kept.contains(all[a]));
                }
                if b < kept.len() {
                    assert(kept.contains(all[b]));
                }
            }
        }
        assert forall|n: Seq<char>| #[trigger] names.filter(wanted).contains(n) == (names.contains(n)
            && wanted(n)) by {
            let kept = rest.filter(wanted);
            assert(names == rest.push(last));
            if wanted(last) {
                assert(names.filter(wanted) == kept.push(last));
                if kept.contains(n) {
                    let k = choose|k: int| 0 <= k < kept.len() && kept[k] == n;
                    assert(kept.push(last)[k] == n);
                }
                if n == last {
                    assert(kept.push(last)[kept.len() as int] == n);
                    assert(names[names.len() - 1] == n);
                }
            }
            if rest.contains(n) {
                let k = choose|k: int| 0 <= k < rest.len() && rest[k] == n;
                assert(names[k] == n);
            }
        }
    }
}

impl<S> RealtimeChannel<S> {
    /// No channel and no member of a channel occurs twice, and no channel is without a
    /// member.
    pub closed spec fn wf(&self) -> bool {
        &&& self.channels.wf()
        &&& forall|channel: Seq<char>| #[trigger]
            self.channels@.contains_key(channel) ==> self.channels@[channel].wf()
        &&& no_empty_channel(self@)
    }

    /// Every channel has a member.
    pub proof fn law_no_empty_channel(&self)
        requires
            self.wf(),
        ensures
            no_empty_channel(self@),
    {
    }

    /// A registry without channels.
    pub fn new() -> (r: RealtimeChannel<S>)
        ensures
            r.wf(),
            r@ == Map::<Seq<char>, Map<Seq<char>, S>>::empty(),
    {
        let r = RealtimeChannel { channels: Directory::new() };
        assert(r@ =~= Map::<Seq<char>, Map<Seq<char>, S>>::empty());
        r
    }

    /// Makes a connection a member of a channel, in place of what it was reached through
    /// there before.
    pub fn subscribe(&mut self, channel: &str, conn_id: &str, subscriber: S)
        requires
            old(self).wf(),
        ensures
            final(self).wf(),
            final(self)@ == subscribed(old(self)@, channel@, conn_id@, subscriber),
    {
        let mut members: Directory<S> = match self.channels.remove(channel) {
            Some(members) => members,
            None => Directory::new(),
        };
        assert(members@ == members_of(old(self)@, channel@));
        members.insert(conn_id, subscriber);
        let ghost joined = members@;
        self.channels.insert(channel, members);
        proof {
            assert(joined.contains_key(conn_id@));
            assert(self@ =~= subscribed(old(self)@, channel@, conn_id@, subscriber));
        }
    }

    /// Ends the membership of a connection in a channel. A channel without members left
    /// is gone.
    pub fn unsubscribe(&mut self, channel: &str, conn_id: &str)
        requires
            old(self).wf(),
        ensures
            final(self).wf(),
            final(self)@ == unsubscribed(old(self)@, channel@, conn_id@),
    {
        match self.channels.remove(channel) {
            Some(mut members) => {
                members.remove(conn_id);
                if !members.is_empty() {
                    self.channels.insert(channel, members);
                }
                assert(self@ =~= unsubscribed(old(self)@, channel@, conn_id@));
            },
            None => {
                assert(Map::<Seq<char>, S>::empty().remove(conn_id@) =~= Map::<
                    Seq<char>,
                    S,
                >::empty());
                assert(self@ =~= unsubscribed(old(self)@, channel@, conn_id@));
            },
        }
    }

    /// The members that a message on a channel goes to: all but the excluded one.
    pub fn broadcast(&self, channel: &str, exclude_conn: Option<&str>) -> (targets: Vec<
        (&String, &S),
    >)
        requires
            self.wf(),
        ensures
            goes_to(self@, channel@, optional_name(exclude_conn), targets@),
    {
        let mut targets: Vec<(&String, &S)> = Vec::new();
        let ghost excluded = optional_name(exclude_conn);
        let members: &Directory<S> = match self.channels.get(channel) {
            Some(members) => members,
            None => {
                assert(target_names(targets@) =~= Seq::empty());
                assert(Map::<Seq<char>, S>::empty().dom() =~= Set::empty());
                assert(target_names(targets@).to_set() =~= recipients(
                    self@,
                    channel@,
                    excluded,
                ));
                return targets;
            },
        };
        let ghost order = members.order();
        let ghost wanted = |name: Seq<char>| Some(name) != excluded;
        let mut i: usize = 0;
        assert(order.take(0).filter(wanted) == Seq::<Seq<char>>::empty()) by {
            reveal(Seq::filter);
        }
        while i < members.len()
            invariant
                members.wf(),
                self@.contains_key(channel@),
                self@[channel@] == members@,
                order == members.order(),
                excluded == optional_name(exclude_conn),
                wanted == (|name: Seq<char>| Some(name) != excluded),
                i <= order.len(),
                target_names(targets@) == order.take(i as int).filter(wanted),
                forall|j: int|
                    0 <= j < targets@.len() ==> *(#[trigger] targets@[j]).1
                        == self@[channel@][targets@[j].0@],
            decreases order.len() - i,
        {
            let (name, subscriber) = members.entry(i);
            let skip: bool = match exclude_conn {
                Some(conn_id) => *name == String::from(conn_id),
                None => false,
            };
            let ghost before = targets@;
            if !skip {
                targets.push((name, subscriber));
                assert(target_names(targets@) =~= target_names(before).push(name@));
            }
            proof {
                reveal(Seq::filter);
                assert(order.take(i + 1).drop_last() == order.take(i as int));
                assert(order.take(i + 1).last() == name@);
                assert(wanted(name@) == !skip);
            }
            i = i + 1;
        }
        proof {
            members.lemma_order();
            assert(order.take(i as int) == order);
            lemma_filter(order, wanted);
            assert(target_names(targets@).to_set() =~= recipients(self@, channel@, excluded)) by {
                assert forall|n: Seq<char>|
                    target_names(targets@).to_set().contains(n) == recipients(
                        self@,
                        channel@,
                        excluded,
                    ).contains(n) by {
                    assert(order.to_set().contains(n) == members@.dom().contains(n));
                }
            }
        }
        targets
    }

    /// The member of a channel that a message for one connection goes to. Where the
    /// channel is unknown the error names it; where the connection is no member the error
    /// names the connection.
    pub fn send_to(&self, channel: &str, conn_id: &str) -> (r: Result<&S, H3Error>)
        requires
            self.wf(),
        ensures
            match r {
                Ok(s) => self@.contains_key(channel@) && self@[channel@].contains_key(conn_id@)
                    && *s == self@[channel@][conn_id@],
                Err(e) => e matches H3Error::ChannelNotFound(name) && if self@.contains_key(
                    channel@,
                ) {
                    !self@[channel@].contains_key(conn_id@) && name@ == conn_id@
                } else {
                    name@ == channel@
                },
            },
    {
        match self.channels.get(channel) {
            Some(members) => match members.get(conn_id) {
                Some(subscriber) => Ok(subscriber),
                None => Err(H3Error::ChannelNotFound(String::from(conn_id))),
            },
            None => Err(H3Error::ChannelNotFound(String::from(channel))),
        }
    }

    /// The members of a channel, each once.
    pub fn subscribers(&self, channel: &str) -> (names: Vec<String>)
        requires
            self.wf(),
        ensures
            texts(names@).no_duplicates(),
            texts(names@).to_set() == members_of(self@, channel@).dom(),
    {
        match self.channels.get(channel) {
            Some(members) => {
                proof {
                    members.lemma_order();
                }
                members.names()
            },
            None => {
                let names: Vec<String> = Vec::new();
                assert(texts(names@) =~= Seq::empty());
                assert(texts(names@).to_set() =~= members_of(
                    self@,
                    channel@,
                ).dom());
                names
            },
        }
    }

    /// The channels that exist, each once.
    pub fn active_channels(&self) -> (names: Vec<String>)
        requires
            self.wf(),
        ensures
            texts(names@).no_duplicates(),
            texts(names@).to_set() == self@.dom(),
    {
        proof {
            self.channels.lemma_order();
            assert(self@.dom() =~= self.channels@.dom());
        }
        self.channels.names()
    }
}

impl<S> Default for RealtimeChannel<S> {
    fn default() -> (r: RealtimeChannel<S>)
        ensures
            r.wf(),
            r@ == Map::<Seq<char>, Map<Seq<char>, S>>::empty(),
    {
        RealtimeChannel::new()
    }
}

/// How many of the members that a message went to have taken it.
pub open spec fn accepted_count(outcomes: Seq<bool>) -> nat {
    outcomes.filter(|accepted: bool| accepted).len()
}

/// Counts the members that have taken a message.
pub fn sent_count(outcomes: &[bool]) -> (n: usize)
    ensures
        n == accepted_count(outcomes@),
{
    let ghost taken = |accepted: bool| accepted;
    let mut n: usize = 0;
    let mut i: usize = 0;
    assert(outcomes@.take(0).filter(taken) == Seq::<bool>::empty()) by {
        reveal(Seq::filter);
    }
    while i < outcomes.len()
        invariant
            taken == (|accepted: bool| accepted),
            i <= outcomes@.len(),
            n == outcomes@.take(i as int).filter(taken).len(),
            n <= i,
        decreases outcomes@.len() - i,
    {
        proof {
            reveal(Seq::filter);
            assert(outcomes@.take(i + 1).drop_last() == outcomes@.take(i as int));
            assert(outcomes@.take(i + 1).last() == outcomes@[i as int]);
        }
        if outcomes[i] {
            n = n + 1;
        }
        i = i + 1;
    }
    assert(outcomes@.take(i as int) == outcomes@);
    n
}

/// What sending to one member comes to: done, or the member is gone.
pub fn delivery(accepted: bool) -> (r: Result<(), H3Error>)
    ensures
        r == (if accepted {
            Ok::<(), H3Error>(())
        } else {
            Err(H3Error::ConnectionClosed)
        }),
{
    if accepted {
        Ok(())
    } else {
        Err(H3Error::ConnectionClosed)
    }
}

/// Who has joined a channel is a member of it, reached as it asked to be, and gets the
/// messages on it that it is not excluded from.
pub proof fn law_joined_is_reached<S>(
    channels: Channels<S>,
    channel: Seq<char>,
    conn_id: Seq<char>,
    subscriber: S,
    exclude: Option<Seq<char>>,
)
    requires
        exclude != Some(conn_id),
    ensures
        members_of(subscribed(channels, channel, conn_id, subscriber), channel).contains_key(
            conn_id,
        ),
        members_of(subscribed(channels, channel, conn_id, subscriber), channel)[conn_id]
            == subscriber,
        recipients(
            subscribed(channels, channel, conn_id, subscriber),
            channel,
            exclude,
        ).contains(conn_id),
{
}

/// Joining a channel again replaces the first membership.
pub proof fn law_joining_again_replaces<S>(
    channels: Channels<S>,
    channel: Seq<char>,
    conn_id: Seq<char>,
    first: S,
    second: S,
)
    ensures
        subscribed(subscribed(channels, channel, conn_id, first), channel, conn_id, second)
            == subscribed(channels, channel, conn_id, second),
{
    let members = members_of(channels, channel);
    assert(members.insert(conn_id, first).insert(conn_id, second) =~= members.insert(
        conn_id,
        second,
    ));
    assert(subscribed(subscribed(channels, channel, conn_id, first), channel, conn_id, second)
        =~= subscribed(channels, channel, conn_id, second));
}

/// Who has left a channel is no member of it and gets no message on it.
pub proof fn law_left_is_not_reached<S>(
    channels: Channels<S>,
    channel: Seq<char>,
    conn_id: Seq<char>,
    exclude: Option<Seq<char>>,
)
    ensures
        !members_of(unsubscribed(channels, channel, conn_id), channel).contains_key(conn_id),
        !recipients(unsubscribed(channels, channel, conn_id), channel, exclude).contains(conn_id),
{
}

/// Leaving undoes joining, for a connection that was no member before.
pub proof fn law_leaving_undoes_joining<S>(
    channels: Channels<S>,
    channel: Seq<char>,
    conn_id: Seq<char>,
    subscriber: S,
)
    requires
        no_empty_channel(channels),
        !members_of(channels, channel).contains_key(conn_id),
    ensures
        unsubscribed(subscribed(channels, channel, conn_id, subscriber), channel, conn_id)
            == channels,
{
    let members = members_of(channels, channel);
    assert(members.insert(conn_id, subscriber).remove(conn_id) =~= members);
    assert(unsubscribed(subscribed(channels, channel, conn_id, subscriber), channel, conn_id)
        =~= channels);
}

/// Joining or leaving one channel, and one connection doing so, leaves every other channel
/// and every other member as it was.
pub proof fn law_others_untouched<S>(
    channels: Channels<S>,
    channel: Seq<char>,
    conn_id: Seq<char>,
    subscriber: S,
    other_channel: Seq<char>,
    other_conn: Seq<char>,
)
    requires
        other_channel != channel || other_conn != conn_id,
    ensures
        members_of(
            subscribed(channels, channel, conn_id, subscriber),
            other_channel,
        ).contains_key(other_conn) == members_of(channels, other_channel).contains_key(other_conn),
        members_of(channels, other_channel).contains_key(other_conn) ==> members_of(
            subscribed(channels, channel, conn_id, subscriber),
            other_channel,
        )[other_conn] == members_of(channels, other_channel)[other_conn],
        members_of(unsubscribed(channels, channel, conn_id), other_channel).contains_key(other_conn)
            == members_of(channels, other_channel).contains_key(other_conn),
        members_of(channels, other_channel).contains_key(other_conn) ==> members_of(
            unsubscribed(channels, channel, conn_id),
            other_channel,
        )[other_conn] == members_of(channels, other_channel)[other_conn],
{
    let members = members_of(channels, channel);
    if other_channel == channel {
        assert(members.remove(conn_id).contains_key(other_conn) == members.contains_key(
            other_conn,
        ));
        if members.remove(conn_id) == Map::<Seq<char>, S>::empty() {
            assert(!members.remove(conn_id).contains_key(other_conn));
        }
    }
}

/// A message never goes to the excluded connection, and goes to every other member; with
/// no exclusion it goes to all members; on a channel that does not exist it goes to none.
pub proof fn law_broadcast_reach<S>(
    channels: Channels<S>,
    channel: Seq<char>,
    sender: Seq<char>,
    conn_id: Seq<char>,
)
    ensures
        !recipients(channels, channel, Some(sender)).contains(sender),
        conn_id != sender ==> recipients(channels, channel, Some(sender)).contains(conn_id)
            == members_of(channels, channel).contains_key(conn_id),
        recipients(channels, channel, None) == members_of(channels, channel).dom(),
        !channels.contains_key(channel) ==> !recipients(channels, channel, None).contains(conn_id),
{
}

/// A channel exists exactly as long as it has a member.
pub proof fn law_channel_exists_with_members<S>(channels: Channels<S>, channel: Seq<char>)
    requires
        no_empty_channel(channels),
    ensures
        channels.contains_key(channel) <==> exists|conn_id: Seq<char>|
            members_of(channels, channel).contains_key(conn_id),
{
    let members = members_of(channels, channel);
    if channels.contains_key(channel) {
        if forall|conn_id: Seq<char>| !members.contains_key(conn_id) {
            assert(members =~= Map::<Seq<char>, S>::empty());
        }
    }
}

/// A message on a channel changes no membership: whomever it goes to, the channels and the
/// members that are listed after it are those that were listed before. On a channel without
/// members it goes to nobody, is counted as taken by nobody, and the channel does not come to
/// exist.
pub proof fn law_message_changes_no_membership<'a, S>(
    registry: &'a RealtimeChannel<S>,
    channel: Seq<char>,
    exclude: Option<Seq<char>>,
    targets: Seq<(&'a String, &'a S)>,
    outcomes: Seq<bool>,
    other: &str,
    channels_before: Vec<String>,
    channels_after: Vec<String>,
    members_before: Vec<String>,
    members_after: Vec<String>,
)
    requires
        registry.wf(),
        call_ensures(RealtimeChannel::<S>::active_channels, (registry,), channels_before),
        call_ensures(RealtimeChannel::<S>::subscribers, (registry, other), members_before),
        goes_to(registry@, channel, exclude, targets),
        outcomes.len() == targets.len(),
        call_ensures(RealtimeChannel::<S>::active_channels, (registry,), channels_after),
        call_ensures(RealtimeChannel::<S>::subscribers, (registry, other), members_after),
    ensures
        texts(channels_after@).to_set() == texts(channels_before@).to_set(),
        texts(members_after@).to_set() == texts(members_before@).to_set(),
        members_of(registry@, channel) == Map::<Seq<char>, S>::empty() ==> {
            &&& targets.len() == 0
            &&& accepted_count(outcomes) == 0
            &&& !texts(channels_after@).contains(channel)
        },
{
    if members_of(registry@, channel) == Map::<Seq<char>, S>::empty() {
        let names = target_names(targets);
        assert(!registry@.contains_key(channel));
        if targets.len() > 0 {
            assert(names.contains(names[0]));
            assert(names.to_set().contains(names[0]));
        }
        law_sent_count_bound(outcomes);
        assert(!texts(channels_after@).to_set().contains(channel));
    }
}

/// A broadcast is counted as taken at most once for each member that it went to.
pub proof fn law_sent_count_bound(outcomes: Seq<bool>)
    ensures
        accepted_count(outcomes) <= outcomes.len(),
{
    outcomes.lemma_filter_len(|accepted: bool| accepted);
}

} // verus!
