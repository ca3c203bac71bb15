//! What connections tell each other, kept for each of them until it is read.
//!
//! A connection that subscribes gets a mailbox. Whatever is published for it
//! from then on waits there, in order, however long the connection is busy
//! with something else.

use crate::bridge::protocol::{Content, Envelope};
use std::collections::VecDeque;
use vstd::prelude::*;

verus! {

/// What connections tell each other.
#[derive(Clone, Copy, PartialEq, Eq, Structural, Debug)]
pub enum Channel {
    /// Which device is connected, to every web peer.
    Presence,
    /// Shaders, to the device.
    Shader,
    /// What the device says about itself, to every web peer.
    Perf,
}

/// Whom a connection is with.
#[derive(Clone, Copy, PartialEq, Eq, Structural, Debug)]
pub enum Audience {
    /// A web peer.
    Ui,
    /// A device.
    Target,
}

/// What waits for one connection.
#[derive(Debug)]
pub struct Mailbox {
    pub audience: Audience,
    pub waiting: VecDeque<Envelope>,
}

/// A place for the mailbox of each connection. A connection knows its mailbox
/// by its place.
#[derive(Debug)]
pub struct Mailboxes {
    pub slots: Vec<Option<Mailbox>>,
}

/// What waits for one connection, by what it says.
#[verifier::ext_equal]
pub struct Letters {
    pub audience: Audience,
    pub waiting: Seq<Content>,
}

/// Whether a channel is for an audience.
pub open spec fn hears(audience: Audience, channel: Channel) -> bool {
    match audience {
        Audience::Ui => channel is Presence || channel is Perf,
        Audience::Target => channel is Shader,
    }
}

/// What several envelopes say.
pub open spec fn contents(envelopes: Seq<Envelope>) -> Seq<Content> {
    envelopes.map_values(|e: Envelope| e.content())
}

impl Letters {
    /// An empty mailbox.
    pub open spec fn none(audience: Audience) -> Letters {
        Letters { audience, waiting: Seq::empty() }
    }

    /// The mailbox after something was published on a channel.
    pub open spec fn after_publishing(self, channel: Channel, content: Content) -> Letters {
        if hears(self.audience, channel) {
            Letters { waiting: self.waiting.push(content), ..self }
        } else {
            self
        }
    }

    /// The mailbox after what has waited longest was taken out, if anything
    /// was waiting.
    pub open spec fn after_taking(self) -> Letters {
        if self.waiting.len() > 0 {
            Letters { waiting: self.waiting.drop_first(), ..self }
        } else {
            self
        }
    }
}

/// What is in a place.
pub open spec fn letters_in(slot: Option<Mailbox>) -> Option<Letters> {
    match slot {
        Some(mailbox) => Some(mailbox.letters()),
        None => None,
    }
}

/// What is in a place after something was published.
pub open spec fn published_to(
    letters: Option<Letters>,
    channel: Channel,
    content: Content,
) -> Option<Letters> {
    match letters {
        Some(letters) => Some(letters.after_publishing(channel, content)),
        None => None,
    }
}

impl Mailbox {
    /// What waits, by what it says.
    pub open spec fn letters(self) -> Letters {
        Letters { audience: self.audience, waiting: contents(self.waiting@) }
    }

    fn post(&mut self, channel: Channel, envelope: &Envelope)
        ensures
            final(self).letters() == old(self).letters().after_publishing(
                channel,
                envelope.content(),
            ),
    {
        let ghost before = self.letters();
        let heard = match (self.audience, channel) {
            (Audience::Ui, Channel::Presence) => true,
            (Audience::Ui, Channel::Perf) => true,
            (Audience::Target, Channel::Shader) => true,
            _ => false,
        };
        if heard {
            self.waiting.push_back(envelope.duplicate());
        }
        assert(self.letters() =~= before.after_publishing(channel, envelope.content()));
    }
}

fn post_to(slot: &mut Option<Mailbox>, channel: Channel, envelope: &Envelope)
    ensures
        letters_in(*final(slot)) == published_to(
            letters_in(*old(slot)),
            channel,
            envelope.content(),
        ),
{
    match slot {
        Some(mailbox) => mailbox.post(channel, envelope),
        None => {},
    }
}

fn take_from(slot: &mut Option<Mailbox>) -> (envelope: Option<Envelope>)
    ensures
        match letters_in(*old(slot)) {
            Some(letters) => {
                &&& letters_in(*final(slot)) == Some(letters.after_taking())
                &&& envelope is Some <==> letters.waiting.len() > 0
                &&& envelope is Some ==> envelope->0.content() == letters.waiting.first()
            },
            None => envelope is None && *final(slot) is None,
        },
{
    match slot {
        Some(mailbox) => {
            let ghost before = mailbox.letters();
            let taken = mailbox.waiting.pop_front();
            assert(mailbox.letters() =~= before.after_taking());
            taken
        },
        None => None,
    }
}

impl Mailboxes {
    /// What waits in each place.
    pub open spec fn all(self) -> Seq<Option<Letters>> {
        self.slots@.map_values(|slot: Option<Mailbox>| letters_in(slot))
    }

    /// No mailboxes.
    pub fn new() -> (mailboxes: Mailboxes)
        ensures
            mailboxes.all() == Seq::<Option<Letters>>::empty(),
    {
        let mailboxes = Mailboxes { slots: Vec::new() };
        assert(mailboxes.all() == Seq::<Option<Letters>>::empty());
        mailboxes
    }

    /// Sets up an empty mailbox in the first place where there is none, and
    /// says where.
    pub fn subscribe(&mut self, audience: Audience) -> (place: usize)
        ensures
            forall|i: int| 0 <= i < place ==> #[trigger] old(self).all()[i] is Some,
            if place < old(self).all().len() {
                &&& old(self).all()[place as int] is None
                &&& final(self).all() == old(self).all().update(
                    place as int,
                    Some(Letters::none(audience)),
                )
            } else {
                &&& place == old(self).all().len()
                &&& final(self).all() == old(self).all().push(Some(Letters::none(audience)))
            },
    {
        let ghost before = self.all();
        let mailbox = Mailbox { audience, waiting: VecDeque::new() };
        assert(mailbox.letters() =~= Letters::none(audience));
        let mut place: usize = 0;
        while place < self.slots.len()
            invariant
                place <= self.slots.len(),
                self.all() == before,
                mailbox.letters() == Letters::none(audience),
                forall|i: int| 0 <= i < place ==> #[trigger] before[i] is Some,
            ensures
                place <= self.slots.len(),
                place < self.slots.len() ==> self.slots@[place as int] is None,
            decreases self.slots.len() - place,
        {
            if self.slots[place].is_none() {
                break;
            }
            assert(before[place as int] is Some);
            place += 1;
        }
        if place < self.slots.len() {
            self.slots.set(place, Some(mailbox));
            assert(self.all() =~= before.update(place as int, Some(Letters::none(audience))));
        } else {
            self.slots.push(Some(mailbox));
            assert(self.all() =~= before.push(Some(Letters::none(audience))));
        }
        place
    }

    /// Puts an envelope in every mailbox that the channel is for.
    pub fn publish(&mut self, channel: Channel, envelope: &Envelope)
        ensures
            final(self).all() == old(self).all().map_values(
                |letters: Option<Letters>| published_to(letters, channel, envelope.content()),
            ),
    {
        let ghost before = self.all();
        let ghost content = envelope.content();
        let mut i: usize = 0;
        while i < self.slots.len()
            invariant
                i <= self.slots.len(),
                self.all().len() == before.len(),
                content == envelope.content(),
                forall|j: int|
                    0 <= j < i ==> #[trigger] self.all()[j] == published_to(
                        before[j],
                        channel,
                        content,
                    ),
                forall|j: int| i <= j < before.len() ==> #[trigger] self.all()[j] == before[j],
            decreases self.slots.len() - i,
        {
            let ghost so_far = self.all();
            assert(so_far[i as int] == before[i as int]);
            post_to(&mut self.slots[i], channel, envelope);
            assert(self.all() =~= so_far.update(
                i as int,
                published_to(before[i as int], channel, content),
            ));
            i += 1;
        }
        assert(self.all() =~= before.map_values(
            |letters: Option<Letters>| published_to(letters, channel, content),
        ));
    }

    /// Takes out what has waited longest in a mailbox, if anything waits.
    pub fn take(&mut self, place: usize) -> (envelope: Option<Envelope>)
        ensures
            if place < old(self).all().len() && old(self).all()[place as int] is Some {
                let letters = old(self).all()[place as int]->0;
                &&& final(self).all() == old(self).all().update(
                    place as int,
                    Some(letters.after_taking()),
                )
                &&& envelope is Some <==> letters.waiting.len() > 0
                &&& envelope is Some ==> envelope->0.content() == letters.waiting.first()
            } else {
                &&& final(self).all() == old(self).all()
                &&& envelope is None
            },
    {
        let ghost before = self.all();
        if place >= self.slots.len() {
            return None;
        }
        let envelope = take_from(&mut self.slots[place]);
        proof {
            if before[place as int] is Some {
                assert(self.all() =~= before.update(
                    place as int,
                    Some(before[place as int]->0.after_taking()),
                ));
            } else {
                assert(self.all() =~= before);
            }
        }
        envelope
    }

    /// Takes a mailbox away, along with what waits in it.
    pub fn unsubscribe(&mut self, place: usize)
        ensures
            final(self).all() == (if place < old(self).all().len() {
                old(self).all().update(place as int, None)
            } else {
                old(self).all()
            }),
    {
        let ghost before = self.all();
        if place < self.slots.len() {
            self.slots.set(place, None);
            assert(self.all() =~= before.update(place as int, None));
        }
    }
}

/// What happens to a mailbox.
pub enum Happening {
    /// Something was published.
    Published(Channel, Content),
    /// What has waited longest was taken out, if anything was waiting.
    Taken,
}

/// A mailbox after several things happened to it.
pub open spec fn after_all(letters: Letters, happenings: Seq<Happening>) -> Letters
    decreases happenings.len(),
{
    if happenings.len() == 0 {
        letters
    } else {
        let earlier = after_all(letters, happenings.drop_last());
        match happenings.last() {
            Happening::Published(channel, content) => earlier.after_publishing(channel, content),
            Happening::Taken => earlier.after_taking(),
        }
    }
}

/// What was taken out of a mailbox along the way.
pub open spec fn taken_out(letters: Letters, happenings: Seq<Happening>) -> Seq<Content>
    decreases happenings.len(),
{
    if happenings.len() == 0 {
        Seq::empty()
    } else {
        let earlier = after_all(letters, happenings.drop_last());
        let so_far = taken_out(letters, happenings.drop_last());
        if happenings.last() is Taken && earlier.waiting.len() > 0 {
            so_far.push(earlier.waiting.first())
        } else {
            so_far
        }
    }
}

/// What was published for an audience along the way.
pub open spec fn published_for(audience: Audience, happenings: Seq<Happening>) -> Seq<Content>
    decreases happenings.len(),
{
    if happenings.len() == 0 {
        Seq::empty()
    } else {
        let so_far = published_for(audience, happenings.drop_last());
        match happenings.last() {
            Happening::Published(channel, content) => if hears(audience, channel) {
                so_far.push(content)
            } else {
                so_far
            },
            Happening::Taken => so_far,
        }
    }
}

/// However much is published while a connection is busy, it misses nothing:
/// what it has taken out since it subscribed, followed by what still waits, is
/// all that was published for it, in order.
pub proof fn nothing_published_is_missed(audience: Audience, happenings: Seq<Happening>)
    ensures
        ({
            let start = Letters::none(audience);
            taken_out(start, happenings) + after_all(start, happenings).waiting == published_for(
                audience,
                happenings,
            )
        }),
        after_all(Letters::none(audience), happenings).audience == audience,
    decreases happenings.len(),
{
    let start = Letters::none(audience);
    if happenings.len() > 0 {
        let before = happenings.drop_last();
        nothing_published_is_missed(audience, before);
        let earlier = after_all(start, before);
        let so_far = taken_out(start, before);
        match happenings.last() {
            Happening::Published(channel, content) => {
                if hears(audience, channel) {
                    assert(so_far + earlier.waiting.push(content) == (so_far
                        + earlier.waiting).push(content));
                }
            },
            Happening::Taken => {
                if earlier.waiting.len() > 0 {
                    assert(so_far.push(earlier.waiting.first()) + earlier.waiting.drop_first()
                        == so_far + earlier.waiting);
                }
            },
        }
    }
    assert(taken_out(start, happenings) + after_all(start, happenings).waiting == published_for(
        audience,
        happenings,
    ));
}

} // verus!
