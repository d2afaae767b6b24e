//! Laws of channels and their members, and of messages.

use vstd::prelude::*;

use crate::error::H3Error;
use crate::laws::words::is_excluded;
use crate::realtime::channel::{
    delivery, recipients, sent_count, target_names, texts, RealtimeChannel, QUEUE_LEN,
};
use crate::realtime::message::RealtimeMessage;
use crate::realtime::reader::stream_message;

verus! {

/// A registry begins with no channel.
pub proof fn law_no_channel_at_first<S>(r: RealtimeChannel<S>)
    requires
        call_ensures(RealtimeChannel::<S>::new, (), r) || call_ensures(
            <RealtimeChannel<S> as Default>::default,
            (),
            r,
        ),
    ensures
        r.wf(),
        forall|channel: Seq<char>| !r@.contains_key(channel),
{
}

/// Who joins a channel is a member of it, reached as it asked to be. The other members stay,
/// and so do all other channels.
pub proof fn law_joining<S>(
    r: &mut RealtimeChannel<S>,
    channel: &str,
    conn_id: &str,
    subscriber: S,
)
    requires
        call_ensures(RealtimeChannel::<S>::subscribe, (r, channel, conn_id, subscriber), ()),
    ensures
        final(r)@.contains_key(channel@),
        final(r)@[channel@].contains_key(conn_id@),
        final(r)@[channel@][conn_id@] == subscriber,
        forall|other: Seq<char>|
            other != conn_id@ ==> (#[trigger] final(r)@[channel@].contains_key(other) <==> old(r)@.contains_key(channel@) && old(r)@[channel@].contains_key(other)),
        forall|other: Seq<char>|
            other != conn_id@ && final(r)@[channel@].contains_key(other) ==> #[trigger] final(r)@[channel@][other] == old(r)@[channel@][other],
        forall|other: Seq<char>|
            other != channel@ ==> (#[trigger] final(r)@.contains_key(other) <==> old(r)@.contains_key(other)),
        forall|other: Seq<char>|
            other != channel@ && old(r)@.contains_key(other) ==> #[trigger] final(r)@[other]
                == old(r)@[other],
{
}

/// Who leaves a channel is no member of it any more. The other members stay, and the channel
/// with them; without them it is gone. All other channels stay.
pub proof fn law_leaving<S>(r: &mut RealtimeChannel<S>, channel: &str, conn_id: &str)
    requires
        old(r).wf(),
        call_ensures(RealtimeChannel::<S>::unsubscribe, (r, channel, conn_id), ()),
    ensures
        final(r)@.contains_key(channel@) <==> old(r)@.contains_key(channel@) && exists|
            other: Seq<char>,
        | other != conn_id@ && #[trigger] old(r)@[channel@].contains_key(other),
        final(r)@.contains_key(channel@) ==> final(r)@[channel@] == old(r)@[channel@].remove(
            conn_id@,
        ),
        forall|other: Seq<char>|
            other != channel@ ==> (#[trigger] final(r)@.contains_key(other) <==> old(r)@.contains_key(other)),
        forall|other: Seq<char>|
            other != channel@ && old(r)@.contains_key(other) ==> #[trigger] final(r)@[other]
                == old(r)@[other],
{
    let none = Map::<Seq<char>, S>::empty();
    if old(r)@.contains_key(channel@) {
        let left = old(r)@[channel@].remove(conn_id@);
        if left == none {
            assert forall|other: Seq<char>| other != conn_id@ implies !(
            #[trigger] old(r)@[channel@].contains_key(other)) by {
                assert(!left.contains_key(other));
            }
        } else {
            if forall|other: Seq<char>| !left.contains_key(other) {
                assert(left =~= none);
            }
            let other = choose|other: Seq<char>| left.contains_key(other);
            assert(old(r)@[channel@].contains_key(other));
        }
    } else {
        assert(none.remove(conn_id@) =~= none);
    }
}

/// Whether a target is a member of a channel that is not excluded, reached as it asked to be.
pub open spec fn is_reached<'a, S>(
    channels: Map<Seq<char>, Map<Seq<char>, S>>,
    channel: Seq<char>,
    exclude: Option<&str>,
    target: (&'a String, &'a S),
) -> bool {
    &&& channels.contains_key(channel)
    &&& channels[channel].contains_key(target.0@)
    &&& *target.1 == channels[channel][target.0@]
    &&& !is_excluded(exclude, target.0@)
}

/// A message on a channel goes to each of its members once, as the member asked to be reached,
/// but for the one that is excluded; and to nobody else.
pub proof fn law_message_goes_to_the_members<'a, S>(
    r: &'a RealtimeChannel<S>,
    channel: &str,
    exclude: Option<&str>,
    targets: Vec<(&'a String, &'a S)>,
)
    requires
        call_ensures(RealtimeChannel::<S>::broadcast, (r, channel, exclude), targets),
    ensures
        forall|i: int|
            0 <= i < targets@.len() ==> is_reached(r@, channel@, exclude, #[trigger] targets@[i]),
        forall|i: int, j: int|
            0 <= i < j < targets@.len() ==> (#[trigger] targets@[i]).0@ != (
            #[trigger] targets@[j]).0@,
        forall|conn_id: Seq<char>|
            r@.contains_key(channel@) && #[trigger] r@[channel@].contains_key(conn_id)
                && !is_excluded(exclude, conn_id) ==> exists|i: int|
                0 <= i < targets@.len() && (#[trigger] targets@[i]).0@ == conn_id,
{
    let names = target_names(targets@);
    let reached = recipients(
        r@,
        channel@,
        crate::realtime::channel::optional_name(exclude),
    );
    assert forall|i: int| 0 <= i < targets@.len() implies is_reached(
        r@,
        channel@,
        exclude,
        #[trigger] targets@[i],
    ) by {
        assert(names[i] == targets@[i].0@);
        assert(names.to_set().contains(names[i]));
        assert(reached.contains(names[i]));
    }
    assert forall|i: int, j: int| 0 <= i < j < targets@.len() implies (#[trigger] targets@[i]).0@
        != (#[trigger] targets@[j]).0@ by {
        assert(names[i] != names[j]);
    }
    assert forall|conn_id: Seq<char>|
        r@.contains_key(channel@) && #[trigger] r@[channel@].contains_key(conn_id) && !is_excluded(
            exclude,
            conn_id,
        ) implies exists|i: int| 0 <= i < targets@.len() && (#[trigger] targets@[i]).0@
        == conn_id by {
        assert(reached.contains(conn_id));
        assert(names.to_set().contains(conn_id));
        let i = choose|i: int| 0 <= i < names.len() && names[i] == conn_id;
        assert(targets@[i].0@ == conn_id);
    }
}

/// A message for one member goes to it as it asked to be reached. Where the channel does not
/// exist the error names the channel, and where it has no such member the error names the
/// member.
pub proof fn law_message_for_one_member<'a, S>(
    r: &'a RealtimeChannel<S>,
    channel: &str,
    conn_id: &str,
    found: Result<&'a S, H3Error>,
)
    requires
        call_ensures(RealtimeChannel::<S>::send_to, (r, channel, conn_id), found),
    ensures
        r@.contains_key(channel@) && r@[channel@].contains_key(conn_id@) ==> (found matches Ok(s)
            && *s == r@[channel@][conn_id@]),
        !r@.contains_key(channel@) ==> (found matches Err(H3Error::ChannelNotFound(name)) && name@
            == channel@),
        r@.contains_key(channel@) && !r@[channel@].contains_key(conn_id@) ==> (found matches Err(
            H3Error::ChannelNotFound(name),
        ) && name@ == conn_id@),
{
}

/// Whether names are listed each once, those that are wanted and no others.
pub open spec fn lists(names: Seq<String>, wanted: spec_fn(Seq<char>) -> bool) -> bool {
    &&& forall|i: int| 0 <= i < names.len() ==> wanted((#[trigger] names[i])@)
    &&& forall|i: int, j: int|
        0 <= i < j < names.len() ==> (#[trigger] names[i])@ != (#[trigger] names[j])@
    &&& forall|name: Seq<char>| #[trigger]
        wanted(name) ==> exists|i: int| 0 <= i < names.len() && (#[trigger] names[i])@ == name
}

proof fn lemma_lists(names: Seq<String>, wanted: spec_fn(Seq<char>) -> bool, listed: Set<Seq<char>>)
    requires
        texts(names).no_duplicates(),
        texts(names).to_set() == listed,
        forall|name: Seq<char>| #[trigger] wanted(name) == listed.contains(name),
    ensures
        lists(names, wanted),
{
    let all = texts(names);
    assert forall|i: int| 0 <= i < names.len() implies wanted((#[trigger] names[i])@) by {
        assert(all[i] == names[i]@);
        assert(all.to_set().contains(all[i]));
    }
    assert forall|i: int, j: int| 0 <= i < j < names.len() implies (#[trigger] names[i])@ != (
    #[trigger] names[j])@ by {
        assert(all[i] != all[j]);
    }
    assert forall|name: Seq<char>| #[trigger] wanted(name) implies exists|i: int|
        0 <= i < names.len() && (#[trigger] names[i])@ == name by {
        assert(all.to_set().contains(name));
        let i = choose|i: int| 0 <= i < all.len() && all[i] == name;
        assert(names[i]@ == name);
    }
}

/// The members of a channel are listed each once, and nobody else.
pub proof fn law_members_are_listed<S>(
    r: &RealtimeChannel<S>,
    channel: &str,
    names: Vec<String>,
)
    requires
        call_ensures(RealtimeChannel::<S>::subscribers, (r, channel), names),
    ensures
        lists(
            names@,
            |name: Seq<char>| r@.contains_key(channel@) && r@[channel@].contains_key(name),
        ),
{
    let wanted = |name: Seq<char>| r@.contains_key(channel@) && r@[channel@].contains_key(name);
    lemma_lists(
        names@,
        wanted,
        crate::realtime::channel::members_of(r@, channel@).dom(),
    );
}

/// The channels that exist are listed each once, and no others.
pub proof fn law_channels_are_listed<S>(r: &RealtimeChannel<S>, names: Vec<String>)
    requires
        call_ensures(RealtimeChannel::<S>::active_channels, (r,), names),
    ensures
        lists(names@, |name: Seq<char>| r@.contains_key(name)),
{
    lemma_lists(names@, |name: Seq<char>| r@.contains_key(name), r@.dom());
}

/// Each member that has taken a message counts for one, and each other for nothing.
pub proof fn law_deliveries_are_counted(
    none: &[bool],
    some: &[bool],
    more: &[bool],
    accepted: bool,
    zero: usize,
    n: usize,
    m: usize,
)
    requires
        none@.len() == 0,
        more@ == some@.push(accepted),
        call_ensures(sent_count, (none,), zero),
        call_ensures(sent_count, (some,), n),
        call_ensures(sent_count, (more,), m),
    ensures
        zero == 0,
        m == n + if accepted {
            1int
        } else {
            0
        },
{
    reveal(Seq::filter);
    assert(more@.drop_last() =~= some@);
}

/// To send to one member succeeds exactly where the member takes it, and fails as closed.
pub proof fn law_delivery(accepted: bool, r: Result<(), H3Error>)
    requires
        call_ensures(delivery, (accepted,), r),
    ensures
        accepted ==> r == Ok::<(), H3Error>(()),
        !accepted ==> r == Err::<(), H3Error>(H3Error::ConnectionClosed),
{
}

/// A message says what it is made of, each in its place.
pub proof fn law_message_says_what_it_is_made_of(
    event: String,
    channel: String,
    payload: serde_json::Value,
    m: RealtimeMessage,
)
    requires
        call_ensures(RealtimeMessage::new::<String, String>, (event, channel, payload), m),
    ensures
        call_ensures(<String as Into<String>>::into, (event,), m.event),
        call_ensures(<String as Into<String>>::into, (channel,), m.channel),
        m.payload == payload,
{
}

/// A copy of a message says what the message says.
pub proof fn law_copy_says_the_same(m: &RealtimeMessage, copy: RealtimeMessage)
    requires
        call_ensures(<RealtimeMessage as Clone>::clone, (m,), copy),
    ensures
        copy.event@ == m.event@,
        copy.channel@ == m.channel@,
        copy.payload == m.payload,
{
}

/// A client says what it was given to say, and names no channel.
pub proof fn law_client_says_what_it_was_given(
    event: &str,
    payload: serde_json::Value,
    m: RealtimeMessage,
)
    requires
        call_ensures(stream_message, (event, payload), m),
    ensures
        m.event@ == event@,
        m.channel@.len() == 0,
        m.payload == payload,
{
    reveal_strlit("");
}

/// How many messages wait.
pub proof fn law_queue_length()
    ensures
        QUEUE_LEN == 256,
{
}

} // verus!
