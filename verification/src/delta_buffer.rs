//! A bounded buffer for text deltas whose message has not been tied to the running command yet.

use crate::text::same_text;
use std::collections::VecDeque;
use vstd::hash_map::StringHashMap;
use vstd::prelude::*;

verus! {

/// Most bytes that the buffer holds in all.
pub const PRECORRELATION_TOTAL_BYTES: usize = 64 * 1024;

/// Most bytes that the buffer holds of one message.
pub const PRECORRELATION_MESSAGE_BYTES: usize = 16 * 1024;

/// Most messages of which the buffer holds deltas.
pub const PRECORRELATION_MESSAGE_IDS: usize = 32;

/// One delta and the message it belongs to.
#[derive(Debug)]
pub struct BufferedDelta {
    pub message_id: String,
    pub text: String,
}

/// Deltas in order of arrival, with the bytes held of each message and in all.
pub struct PreCorrelationDeltaBuffer {
    deltas: VecDeque<BufferedDelta>,
    bytes_by_message: StringHashMap<usize>,
    total_bytes: usize,
}

/// The number of bytes of a text in UTF-8.
pub open spec fn byte_len(text: Seq<char>) -> nat {
    vstd::utf8::encode_utf8(text).len()
}

/// A delta as a pair of message id and text.
pub type Delta = (Seq<char>, Seq<char>);

/// The ids of the messages that have a delta.
pub open spec fn ids(d: Seq<Delta>) -> Set<Seq<char>>
    decreases d.len(),
{
    if d.len() == 0 {
        Set::empty()
    } else {
        ids(d.drop_last()).insert(d.last().0)
    }
}

/// The bytes held of one message.
pub open spec fn bytes_for(d: Seq<Delta>, id: Seq<char>) -> nat
    decreases d.len(),
{
    if d.len() == 0 {
        0
    } else {
        bytes_for(d.drop_last(), id) + if d.last().0 == id {
            byte_len(d.last().1)
        } else {
            0
        }
    }
}

/// The bytes held in all.
pub open spec fn total(d: Seq<Delta>) -> nat
    decreases d.len(),
{
    if d.len() == 0 {
        0
    } else {
        total(d.drop_last()) + byte_len(d.last().1)
    }
}

/// The texts held of one message, in order of arrival.
pub open spec fn text_for(d: Seq<Delta>, id: Seq<char>) -> Seq<char>
    decreases d.len(),
{
    if d.len() == 0 {
        Seq::empty()
    } else if d.last().0 == id {
        text_for(d.drop_last(), id) + d.last().1
    } else {
        text_for(d.drop_last(), id)
    }
}

/// The deltas of all other messages, in order of arrival.
pub open spec fn without(d: Seq<Delta>, id: Seq<char>) -> Seq<Delta>
    decreases d.len(),
{
    if d.len() == 0 {
        Seq::empty()
    } else if d.last().0 == id {
        without(d.drop_last(), id)
    } else {
        without(d.drop_last(), id).push(d.last())
    }
}

/// What stays when whole messages leave, oldest first, until `n` more bytes fit; and whether they
/// do. Message `id` itself never leaves: once it is the oldest, nothing more is freed.
pub open spec fn make_room(d: Seq<Delta>, id: Seq<char>, n: nat) -> (Seq<Delta>, bool)
    decreases d.len(),
{
    if total(d) + n <= PRECORRELATION_TOTAL_BYTES {
        (d, true)
    } else if d.len() == 0 || d[0].0 == id {
        (d, false)
    } else {
        proof {
            lemma_without_shrinks(d, 0);
        }
        make_room(without(d, d[0].0), id, n)
    }
}

/// What stays when a message that is new to a buffer full of messages displaces the oldest one.
pub open spec fn make_slot(d: Seq<Delta>, id: Seq<char>) -> Seq<Delta> {
    if !ids(d).contains(id) && ids(d).len() >= PRECORRELATION_MESSAGE_IDS && d.len() > 0 {
        without(d, d[0].0)
    } else {
        d
    }
}

/// Whether a delta is of a size that can ever be held.
pub open spec fn admissible(id: Seq<char>, text: Seq<char>) -> bool {
    id.len() > 0 && text.len() > 0 && byte_len(text) <= PRECORRELATION_MESSAGE_BYTES
}

/// Whether a delta is held once it has been offered.
pub open spec fn accepts(d: Seq<Delta>, id: Seq<char>, text: Seq<char>) -> bool {
    &&& admissible(id, text)
    &&& bytes_for(make_slot(d, id), id) + byte_len(text) <= PRECORRELATION_MESSAGE_BYTES
    &&& make_room(make_slot(d, id), id, byte_len(text)).1
}

/// What the buffer holds once a delta has been offered.
pub open spec fn offered(d: Seq<Delta>, id: Seq<char>, text: Seq<char>) -> Seq<Delta> {
    let slot = make_slot(d, id);
    let room = make_room(slot, id, byte_len(text)).0;
    if !admissible(id, text) {
        d
    } else if bytes_for(slot, id) + byte_len(text) > PRECORRELATION_MESSAGE_BYTES {
        slot
    } else if accepts(d, id, text) {
        room.push((id, text))
    } else {
        room
    }
}

/// The limits on what is held.
pub open spec fn within_caps(d: Seq<Delta>) -> bool {
    &&& total(d) <= PRECORRELATION_TOTAL_BYTES
    &&& ids(d).len() <= PRECORRELATION_MESSAGE_IDS
    &&& forall|id: Seq<char>| #[trigger] bytes_for(d, id) <= PRECORRELATION_MESSAGE_BYTES
}

// ---------------------------------------------------------------------------
// Facts about deltas
// ---------------------------------------------------------------------------
pub proof fn lemma_without_shrinks(d: Seq<Delta>, i: int)
    requires
        0 <= i < d.len(),
    ensures
        without(d, d[i].0).len() < d.len(),
    decreases d.len(),
{
    lemma_without_no_longer(d.drop_last(), d[i].0);
    if i < d.len() - 1 {
        lemma_without_shrinks(d.drop_last(), i);
    }
}

proof fn lemma_without_no_longer(d: Seq<Delta>, id: Seq<char>)
    ensures
        without(d, id).len() <= d.len(),
    decreases d.len(),
{
    if d.len() > 0 {
        lemma_without_no_longer(d.drop_last(), id);
    }
}

/// The totals of what stays when a message leaves.
pub proof fn lemma_without(d: Seq<Delta>, id: Seq<char>, other: Seq<char>)
    ensures
        ids(without(d, id)) == ids(d).remove(id),
        total(without(d, id)) + bytes_for(d, id) == total(d),
        bytes_for(without(d, id), id) == 0,
        text_for(without(d, id), id) == Seq::<char>::empty(),
        other != id ==> bytes_for(without(d, id), other) == bytes_for(d, other),
        other != id ==> text_for(without(d, id), other) == text_for(d, other),
        !ids(d).contains(id) ==> without(d, id) == d && bytes_for(d, id) == 0,
    decreases d.len(),
{
    if d.len() > 0 {
        let rest = d.drop_last();
        lemma_without(rest, id, other);
        if d.last().0 != id {
            let kept = without(rest, id);
            assert(kept.push(d.last()).drop_last() == kept);
            assert(ids(without(d, id)) =~= ids(d).remove(id));
            if !ids(d).contains(id) {
                assert(rest.push(d.last()) == d);
            }
        } else {
            assert(ids(without(d, id)) =~= ids(d).remove(id));
        }
    } else {
        assert(ids(without(d, id)) =~= ids(d).remove(id));
        assert(without(d, id) == d);
    }
}

proof fn lemma_ids_finite(d: Seq<Delta>)
    ensures
        ids(d).finite(),
    decreases d.len(),
{
    if d.len() > 0 {
        lemma_ids_finite(d.drop_last());
    }
}

proof fn lemma_ids_contain(d: Seq<Delta>, i: int)
    requires
        0 <= i < d.len(),
    ensures
        ids(d).contains(d[i].0),
    decreases d.len(),
{
    if i < d.len() - 1 {
        lemma_ids_contain(d.drop_last(), i);
    }
}

proof fn lemma_without_keeps_caps(d: Seq<Delta>, id: Seq<char>)
    requires
        within_caps(d),
    ensures
        within_caps(without(d, id)),
{
    lemma_without(d, id, id);
    lemma_ids_finite(d);
    assert(ids(d).remove(id).len() <= ids(d).len());
    assert forall|x: Seq<char>| #[trigger] bytes_for(without(d, id), x)
        <= PRECORRELATION_MESSAGE_BYTES by {
        lemma_without(d, id, x);
        assert(bytes_for(d, x) <= PRECORRELATION_MESSAGE_BYTES);
    }
}

/// Making room drops whole messages only, never `id`, and reports success exactly when the bytes
/// fit.
pub proof fn lemma_make_room(d: Seq<Delta>, id: Seq<char>, n: nat, other: Seq<char>)
    ensures
        make_room(d, id, n).1 <==> total(make_room(d, id, n).0) + n <= PRECORRELATION_TOTAL_BYTES,
        ids(make_room(d, id, n).0).subset_of(ids(d)),
        bytes_for(make_room(d, id, n).0, id) == bytes_for(d, id),
        text_for(make_room(d, id, n).0, id) == text_for(d, id),
        within_caps(d) ==> within_caps(make_room(d, id, n).0),
        ids(make_room(d, id, n).0).contains(other) ==> text_for(make_room(d, id, n).0, other)
            == text_for(d, other),
    decreases d.len(),
{
    if total(d) + n > PRECORRELATION_TOTAL_BYTES && d.len() > 0 && d[0].0 != id {
        let next = without(d, d[0].0);
        lemma_without_shrinks(d, 0);
        lemma_without(d, d[0].0, id);
        lemma_without(d, d[0].0, other);
        lemma_make_room(next, id, n, other);
        if within_caps(d) {
            lemma_without_keeps_caps(d, d[0].0);
        }
    }
}

proof fn lemma_make_slot(d: Seq<Delta>, id: Seq<char>, other: Seq<char>)
    requires
        within_caps(d),
    ensures
        within_caps(make_slot(d, id)),
        ids(make_slot(d, id)).insert(id).len() <= PRECORRELATION_MESSAGE_IDS,
        ids(make_slot(d, id)).subset_of(ids(d)),
        bytes_for(make_slot(d, id), id) == bytes_for(d, id),
        text_for(make_slot(d, id), id) == text_for(d, id),
        ids(make_slot(d, id)).contains(other) ==> text_for(make_slot(d, id), other) == text_for(
            d,
            other,
        ),
{
    lemma_ids_finite(d);
    lemma_ids_finite(make_slot(d, id));
    if !ids(d).contains(id) && ids(d).len() >= PRECORRELATION_MESSAGE_IDS {
        if d.len() > 0 {
            lemma_ids_contain(d, 0);
            lemma_without(d, d[0].0, id);
            lemma_without(d, d[0].0, other);
            lemma_without_keeps_caps(d, d[0].0);
        }
    } else if ids(d).contains(id) {
        assert(ids(d).insert(id) =~= ids(d));
    }
}

/// Offering a delta to a buffer within its limits leaves it within its limits.
pub proof fn law_offer_keeps_caps(d: Seq<Delta>, id: Seq<char>, text: Seq<char>)
    requires
        within_caps(d),
    ensures
        within_caps(offered(d, id, text)),
{
    let n = byte_len(text);
    let slot = make_slot(d, id);
    let room = make_room(slot, id, n).0;
    lemma_make_slot(d, id, id);
    lemma_make_room(slot, id, n, id);
    lemma_ids_finite(slot);
    lemma_ids_finite(room);
    if accepts(d, id, text) {
        let held = room.push((id, text));
        assert(held.drop_last() == room);
        assert(ids(held) == ids(room).insert(id));
        assert(ids(room).insert(id).subset_of(ids(slot).insert(id)));
        vstd::set_lib::lemma_len_subset(ids(room).insert(id), ids(slot).insert(id));
        assert forall|x: Seq<char>| #[trigger] bytes_for(held, x)
            <= PRECORRELATION_MESSAGE_BYTES by {
            assert(bytes_for(room, x) <= PRECORRELATION_MESSAGE_BYTES);
        }
    }
}

/// An accepted delta is read back at the end of its message's text; a refused one changes no text
/// of its message.
pub proof fn law_offer_then_read(d: Seq<Delta>, id: Seq<char>, text: Seq<char>)
    requires
        within_caps(d),
    ensures
        text_for(offered(d, id, text), id) == if accepts(d, id, text) {
            text_for(d, id) + text
        } else {
            text_for(d, id)
        },
{
    let slot = make_slot(d, id);
    let room = make_room(slot, id, byte_len(text)).0;
    lemma_make_slot(d, id, id);
    lemma_make_room(slot, id, byte_len(text), id);
    assert(room.push((id, text)).drop_last() == room);
}

/// Another message keeps all of its text or loses all of it when a delta is offered.
pub proof fn law_offer_keeps_others_whole(
    d: Seq<Delta>,
    id: Seq<char>,
    text: Seq<char>,
    other: Seq<char>,
)
    requires
        within_caps(d),
        other != id,
    ensures
        text_for(offered(d, id, text), other) == text_for(d, other) || !ids(
            offered(d, id, text),
        ).contains(other),
{
    let slot = make_slot(d, id);
    let room = make_room(slot, id, byte_len(text)).0;
    lemma_make_slot(d, id, other);
    lemma_make_room(slot, id, byte_len(text), other);
    assert(room.push((id, text)).drop_last() == room);
}

// ---------------------------------------------------------------------------
// The buffer
// ---------------------------------------------------------------------------
impl PreCorrelationDeltaBuffer {
    /// The deltas in order of arrival.
    pub closed spec fn view(&self) -> Seq<Delta> {
        delta_views(self.deltas@)
    }

    /// The counts agree with the deltas, and the limits hold.
    pub closed spec fn wf(&self) -> bool {
        &&& self.bytes_by_message@.dom() == ids(self@)
        &&& forall|id: Seq<char>| #[trigger]
            self.bytes_by_message@.contains_key(id) ==> self.bytes_by_message@[id] == bytes_for(
                self@,
                id,
            )
        &&& self.total_bytes == total(self@)
        &&& within_caps(self@)
    }

    /// Whatever was offered to it, a buffer is within its limits.
    pub proof fn law_wf_within_caps(&self)
        requires
            self.wf(),
        ensures
            within_caps(self@),
    {
    }

    /// The number of messages that have a delta.
    pub fn message_count(&self) -> (r: usize)
        requires
            self.wf(),
        ensures
            r == ids(self@).len(),
    {
        self.bytes_by_message.len()
    }

    /// Whether a message has a delta.
    pub fn contains_message(&self, message_id: &str) -> (r: bool)
        requires
            self.wf(),
        ensures
            r == ids(self@).contains(message_id@),
    {
        self.bytes_by_message.contains_key(message_id)
    }

    /// The bytes held in all.
    pub fn total_bytes(&self) -> (r: usize)
        requires
            self.wf(),
        ensures
            r == total(self@),
    {
        self.total_bytes
    }

    /// Offer a delta: oldest messages make way for it, and it is dropped when it cannot fit.
    pub fn push(&mut self, message_id: &str, delta: &str)
        requires
            old(self).wf(),
        ensures
            final(self).wf(),
            final(self)@ == offered(old(self)@, message_id@, delta@),
    {
        if message_id.is_empty() || delta.is_empty() {
            return;
        }
        let delta_bytes: usize = delta.as_bytes().len();
        if delta_bytes > PRECORRELATION_MESSAGE_BYTES || delta_bytes > PRECORRELATION_TOTAL_BYTES {
            return;
        }
        let ghost slot = make_slot(self@, message_id@);
        proof {
            lemma_make_slot(self@, message_id@, message_id@);
        }
        if !self.bytes_by_message.contains_key(message_id) && self.bytes_by_message.len()
            >= PRECORRELATION_MESSAGE_IDS {
            self.evict_oldest_message();
        }
        let message_bytes: usize = match self.bytes_by_message.get(message_id) {
            Some(bytes) => *bytes,
            None => 0,
        };
        proof {
            lemma_without(self@, message_id@, message_id@);
            assert(bytes_for(self@, message_id@) <= PRECORRELATION_MESSAGE_BYTES);
        }
        assert(message_bytes == bytes_for(slot, message_id@));
        if message_bytes + delta_bytes > PRECORRELATION_MESSAGE_BYTES {
            return;
        }
        let ghost room = make_room(slot, message_id@, byte_len(delta@));
        while self.total_bytes + delta_bytes > PRECORRELATION_TOTAL_BYTES
            invariant
                self.wf(),
                delta_bytes == byte_len(delta@),
                delta_bytes <= PRECORRELATION_MESSAGE_BYTES,
                message_bytes + delta_bytes <= PRECORRELATION_MESSAGE_BYTES,
                message_id@.len() > 0,
                delta@.len() > 0,
                slot == make_slot(old(self)@, message_id@),
                message_bytes == bytes_for(slot, message_id@),
                room == make_room(slot, message_id@, byte_len(delta@)),
                room == make_room(self@, message_id@, byte_len(delta@)),
            decreases self@.len(),
        {
            if self.deltas.len() == 0 {
                return;
            }
            let oldest_message_id = self.deltas[0].message_id.clone();
            if same_text(oldest_message_id.as_str(), message_id) {
                return;
            }
            proof {
                lemma_without_shrinks(self@, 0);
            }
            self.evict_message(oldest_message_id.as_str());
        }
        proof {
            lemma_make_room(slot, message_id@, byte_len(delta@), message_id@);
            law_offer_keeps_caps(old(self)@, message_id@, delta@);
        }
        let ghost held = self@;
        self.deltas.push_back(
            BufferedDelta { message_id: message_id.to_string(), text: delta.to_string() },
        );
        self.bytes_by_message.insert(message_id.to_string(), message_bytes + delta_bytes);
        self.total_bytes += delta_bytes;
        proof {
            assert(self@ == held.push((message_id@, delta@)));
            assert(self@.drop_last() == held);
            assert(self.bytes_by_message@.dom() =~= ids(self@));
        }
    }

    /// Take out the text of one message, in order of arrival.
    pub fn take(&mut self, message_id: &str) -> (r: String)
        requires
            old(self).wf(),
        ensures
            final(self).wf(),
            r@ == text_for(old(self)@, message_id@),
            final(self)@ == without(old(self)@, message_id@),
    {
        let mut text = String::new();
        let mut i: usize = 0;
        while i < self.deltas.len()
            invariant
                *self == *old(self),
                i <= self.deltas@.len(),
                text@ == text_for(self@.take(i as int), message_id@),
            decreases self.deltas.len() - i,
        {
            assert(self@.take(i + 1).drop_last() == self@.take(i as int));
            if same_text(self.deltas[i].message_id.as_str(), message_id) {
                text.append(self.deltas[i].text.as_str());
            }
            i += 1;
        }
        assert(self@.take(i as int) == self@);
        self.evict_message(message_id);
        text
    }

    /// Drop the message that the oldest delta belongs to.
    pub fn evict_oldest_message(&mut self)
        requires
            old(self).wf(),
        ensures
            final(self).wf(),
            final(self)@ == if old(self)@.len() > 0 {
                without(old(self)@, old(self)@[0].0)
            } else {
                old(self)@
            },
    {
        if self.deltas.len() > 0 {
            let message_id = self.deltas[0].message_id.clone();
            self.evict_message(message_id.as_str());
        }
    }

    /// Drop one message.
    pub fn evict_message(&mut self, message_id: &str)
        requires
            old(self).wf(),
        ensures
            final(self).wf(),
            final(self)@ == without(old(self)@, message_id@),
    {
        proof {
            lemma_without(self@, message_id@, message_id@);
            lemma_without_keeps_caps(self@, message_id@);
        }
        let removed_bytes: usize = match self.bytes_by_message.get(message_id) {
            Some(bytes) => *bytes,
            None => {
                return;
            },
        };
        self.bytes_by_message.remove(message_id);
        self.drop_deltas(message_id);
        self.total_bytes -= removed_bytes;
        proof {
            assert(self.bytes_by_message@.dom() =~= ids(self@));
            assert forall|id: Seq<char>| #[trigger]
                self.bytes_by_message@.contains_key(id) implies self.bytes_by_message@[id]
                == bytes_for(self@, id) by {
                lemma_without(old(self)@, message_id@, id);
                assert(old(self).bytes_by_message@.contains_key(id));
            }
        }
    }

    fn drop_deltas(&mut self, message_id: &str)
        ensures
            final(self)@ == without(old(self)@, message_id@),
            final(self).bytes_by_message == old(self).bytes_by_message,
            final(self).total_bytes == old(self).total_bytes,
    {
        let mut kept: VecDeque<BufferedDelta> = VecDeque::new();
        let ghost all = self@;
        let ghost mut done: int = 0;
        loop
            invariant
                self.bytes_by_message == old(self).bytes_by_message,
                self.total_bytes == old(self).total_bytes,
                all == old(self)@,
                0 <= done <= all.len(),
                self@ == all.skip(done),
                delta_views(kept@) == without(all.take(done), message_id@),
            ensures
                done == all.len(),
            decreases self.deltas@.len(),
        {
            let ghost left = self@;
            assert(left.len() == all.len() - done);
            match self.deltas.pop_front() {
                Some(delta) => {
                    let ghost earlier = kept@;
                    proof {
                        assert(self@ == left.drop_first());
                        assert(all.take(done + 1).drop_last() == all.take(done));
                        assert(self@ == all.skip(done + 1));
                        assert((delta.message_id@, delta.text@) == all[done]) by {
                            assert(all.skip(done)[0] == all[done]);
                        }
                    }
                    if !same_text(delta.message_id.as_str(), message_id) {
                        kept.push_back(delta);
                        assert(delta_views(kept@) == delta_views(earlier).push(all[done]));
                    }
                    proof {
                        done = done + 1;
                    }
                },
                None => {
                    break;
                },
            }
        }
        assert(all.take(done) == all);
        self.deltas = kept;
    }
}

/// Deltas as pairs of message id and text.
pub open spec fn delta_views(deltas: Seq<BufferedDelta>) -> Seq<Delta> {
    Seq::new(deltas.len(), |i: int| (deltas[i].message_id@, deltas[i].text@))
}

impl Default for PreCorrelationDeltaBuffer {
    fn default() -> (r: Self)
        ensures
            r.wf(),
            r@ == Seq::<Delta>::empty(),
    {
        let r = PreCorrelationDeltaBuffer {
            deltas: VecDeque::new(),
            bytes_by_message: StringHashMap::new(),
            total_bytes: 0,
        };
        proof {
            assert(r@ == Seq::<Delta>::empty());
            assert(r.bytes_by_message@.dom() =~= ids(r@));
            assert(within_caps(r@));
        }
        r
    }
}

// ---------------------------------------------------------------------------
// What becomes of an offered delta
// ---------------------------------------------------------------------------
/// One more delta adds its text behind its message's text, its bytes to its message and to the total, and
/// its message to the ids, and concerns no other message; taking a message out leaves all others in order.
pub proof fn law_one_more_delta(d: Seq<Delta>, id: Seq<char>, text: Seq<char>, other: Seq<char>)
    ensures
        text_for(d.push((id, text)), id) == text_for(d, id) + text,
        other != id ==> text_for(d.push((id, text)), other) == text_for(d, other),
        bytes_for(d.push((id, text)), id) == bytes_for(d, id) + vstd::utf8::encode_utf8(text).len(),
        other != id ==> bytes_for(d.push((id, text)), other) == bytes_for(d, other),
        total(d.push((id, text))) == total(d) + vstd::utf8::encode_utf8(text).len(),
        ids(d.push((id, text))) == ids(d).insert(id),
        without(d.push((id, text)), id) == without(d, id),
        other != id ==> without(d.push((id, text)), other) == without(d, other).push((id, text)),
        text_for(Seq::<Delta>::empty(), id) == Seq::<char>::empty(),
        without(Seq::<Delta>::empty(), id) == Seq::<Delta>::empty(),
        total(Seq::<Delta>::empty()) == 0,
        ids(Seq::<Delta>::empty()) == Set::<Seq<char>>::empty(),
{
    assert(d.push((id, text)).drop_last() == d);
    assert(d.push((id, text)).last() == (id, text));
}

/// A delta that fits is held as it is, behind all others, and nothing leaves: within sixteen kibibytes of
/// its message, sixty-four in all, and thirty-two messages.
pub proof fn law_fitting_offer_is_appended(d: Seq<Delta>, id: Seq<char>, text: Seq<char>)
    requires
        id.len() > 0,
        text.len() > 0,
        bytes_for(d, id) + vstd::utf8::encode_utf8(text).len() <= 16384,
        total(d) + vstd::utf8::encode_utf8(text).len() <= 65536,
        ids(d).contains(id) || ids(d).len() < 32,
    ensures
        offered(d, id, text) == d.push((id, text)),
        accepts(d, id, text),
{
}

/// A delta without a message or a text, or larger than a message may be, changes nothing; neither does one
/// for which its own held message has no room.
pub proof fn law_hopeless_offer_changes_nothing(d: Seq<Delta>, id: Seq<char>, text: Seq<char>)
    requires
        id.len() == 0 || text.len() == 0 || vstd::utf8::encode_utf8(text).len() > 16384 || (ids(
            d,
        ).contains(id) && bytes_for(d, id) + vstd::utf8::encode_utf8(text).len() > 16384),
    ensures
        offered(d, id, text) == d,
        !accepts(d, id, text),
{
}

/// When there is no room in all, the oldest message leaves as a whole, and the delta is offered to what
/// stays; if the oldest message is the delta's own, the delta is dropped and nothing leaves.
pub proof fn law_oldest_message_makes_room(d: Seq<Delta>, id: Seq<char>, text: Seq<char>)
    requires
        within_caps(d),
        d.len() > 0,
        id.len() > 0,
        text.len() > 0,
        bytes_for(d, id) + vstd::utf8::encode_utf8(text).len() <= 16384,
        total(d) + vstd::utf8::encode_utf8(text).len() > 65536,
        ids(d).contains(id) || ids(d).len() < 32,
    ensures
        d[0].0 == id ==> offered(d, id, text) == d,
        d[0].0 != id ==> offered(d, id, text) == offered(without(d, d[0].0), id, text),
{
    if d[0].0 != id {
        let rest = without(d, d[0].0);
        lemma_without_shrinks(d, 0);
        lemma_without(d, d[0].0, id);
        lemma_ids_finite(d);
        lemma_ids_contain(d, 0);
        assert(make_slot(d, id) == d);
        assert(make_slot(rest, id) == rest);
    }
}

/// When thirty-two messages are held, a delta of a new message makes the oldest message leave as a whole,
/// and is offered to what stays.
pub proof fn law_oldest_message_makes_a_slot(d: Seq<Delta>, id: Seq<char>, text: Seq<char>)
    requires
        within_caps(d),
        id.len() > 0,
        text.len() > 0,
        vstd::utf8::encode_utf8(text).len() <= 16384,
        !ids(d).contains(id),
        ids(d).len() == 32,
    ensures
        d.len() > 0,
        offered(d, id, text) == offered(without(d, d[0].0), id, text),
        !ids(without(d, d[0].0)).contains(d[0].0),
{
    if d.len() > 0 {
        lemma_ids_finite(d);
        lemma_ids_contain(d, 0);
        lemma_without(d, d[0].0, id);
        let rest = without(d, d[0].0);
        assert(make_slot(rest, id) == rest);
    }
}

} // verus!
