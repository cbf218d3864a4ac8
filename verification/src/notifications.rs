//! Notifications waiting for the web front end.
use crate::text::owned;
use crate::trusted::{hyphenated_uuid, new_uuid, utc_now_rfc3339, utc_rfc3339_text};
use vstd::prelude::*;

verus! {

/// A notification: where it comes from, what it says, an id and its creation time.
pub struct Notification {
    pub id: String,
    pub source: String,
    pub message: String,
    pub created_at: String,
}

/// The notifications not yet handed out, oldest first.
pub struct NotificationStore {
    items: Vec<Notification>,
}

/// The model of a notification: its source and message.
pub open spec fn note_view(n: Notification) -> (Seq<char>, Seq<char>) {
    (n.source@, n.message@)
}

/// One push: the notifications waiting stay as they were, and a new one comes last with its
/// source, its message, an id in the hyphenated UUID form and its creation time in RFC 3339.
pub open spec fn pushed(before: Seq<Notification>, after: Seq<Notification>, source: Seq<char>, message: Seq<char>) -> bool {
    &&& after.len() == before.len() + 1
    &&& after.take(before.len() as int) == before
    &&& after.last().source@ == source
    &&& after.last().message@ == message
    &&& hyphenated_uuid(after.last().id@)
    &&& utc_rfc3339_text(after.last().created_at@)
}

impl NotificationStore {
    /// The notifications waiting, oldest first.
    pub closed spec fn notes(&self) -> Seq<Notification> {
        self.items@
    }

    /// The sources and messages waiting, oldest first.
    pub open spec fn pending(&self) -> Seq<(Seq<char>, Seq<char>)> {
        Seq::new(self.notes().len(), |i: int| note_view(self.notes()[i]))
    }

    /// An empty store.
    pub fn new() -> (r: Self)
        ensures
            r.notes().len() == 0,
    {
        NotificationStore { items: Vec::new() }
    }

    /// Adds a notification, with a fresh random id and the current time (`pushed`).
    pub fn push(&mut self, source: &str, message: &str)
        ensures
            pushed(old(self).notes(), final(self).notes(), source@, message@),
            final(self).pending() == old(self).pending().push((source@, message@)),
    {
        let n = Notification {
            id: new_uuid(),
            source: owned(source),
            message: owned(message),
            created_at: utc_now_rfc3339(),
        };
        self.items.push(n);
        assert(self.notes().take(old(self).notes().len() as int) =~= old(self).notes());
        assert(self.pending() =~= old(self).pending().push((source@, message@)));
    }

    /// Hands out every waiting notification, oldest first, and leaves the store empty.
    pub fn drain(&mut self) -> (r: Vec<Notification>)
        ensures
            r@ == old(self).notes(),
            final(self).notes().len() == 0,
    {
        let mut out: Vec<Notification> = Vec::new();
        core::mem::swap(&mut out, &mut self.items);
        out
    }
}

/// Pushes then a drain: starting from an empty store, after `n` pushes the notifications
/// waiting (which a drain hands out, leaving the store empty) are `n`, with the sources and
/// messages pushed, in push order, each with an id in the hyphenated UUID form and an RFC 3339
/// creation time.
pub proof fn lemma_drain_after_pushes(stores: Seq<Seq<Notification>>, items: Seq<(Seq<char>, Seq<char>)>)
    requires
        stores.len() == items.len() + 1,
        stores[0].len() == 0,
        forall|k: int| 0 <= k < items.len() ==> pushed(stores[k], #[trigger] stores[k + 1], items[k].0, items[k].1),
    ensures
        stores.last().len() == items.len(),
        forall|i: int| 0 <= i < items.len() ==> note_view(#[trigger] stores.last()[i]) == items[i],
        forall|i: int| 0 <= i < items.len() ==> hyphenated_uuid(#[trigger] stores.last()[i].id@)
            && utc_rfc3339_text(stores.last()[i].created_at@),
    decreases items.len(),
{
    let n = items.len() as int;
    if n > 0 {
        let s2 = stores.drop_last();
        let i2 = items.drop_last();
        assert forall|k: int| 0 <= k < i2.len() implies pushed(s2[k], #[trigger] s2[k + 1], i2[k].0, i2[k].1) by {
            assert(s2[k + 1] == stores[k + 1]);
            assert(pushed(stores[k], stores[k + 1], items[k].0, items[k].1));
        }
        lemma_drain_after_pushes(s2, i2);
        let k = n - 1;
        assert(pushed(stores[k], stores[k + 1], items[k].0, items[k].1));
        assert(stores.last() == stores[k + 1]);
        assert(s2.last() == stores[k]);
        assert forall|i: int| 0 <= i < n implies note_view(#[trigger] stores.last()[i]) == items[i]
            && hyphenated_uuid(stores.last()[i].id@) && utc_rfc3339_text(stores.last()[i].created_at@) by {
            if i < k {
                assert(stores.last()[i] == stores.last().take(k)[i]);
                assert(stores.last()[i] == s2.last()[i]);
                assert(items[i] == i2[i]);
            }
        }
    }
}

} // verus!
