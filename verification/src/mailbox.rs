//! Single-item mailboxes for binary payloads handed from the host to the
//! simulation loop.
//!
//! A mailbox is not a queue: the host only cares that its latest upload
//! lands, so a deposit replaces whatever is still waiting.

use vstd::prelude::*;

verus! {

/// What a slot holds after `bytes` is deposited, whatever it held before.
pub open spec fn after_deposit(pending: Option<Seq<u8>>, bytes: Seq<u8>) -> Option<Seq<u8>> {
    Some(bytes)
}

/// What a slot holds after the payloads of `deposits` are deposited one after
/// the other, first to last, with nothing taken in between.
pub open spec fn after_deposits(pending: Option<Seq<u8>>, deposits: Seq<Seq<u8>>) -> Option<
    Seq<u8>,
>
    decreases deposits.len(),
{
    if deposits.len() == 0 {
        pending
    } else {
        after_deposit(after_deposits(pending, deposits.drop_last()), deposits.last())
    }
}

/// A mailbox that holds at most one pending payload.
///
/// A deposit replaces whatever is pending; a take hands the pending payload
/// to the consumer and leaves the slot empty.
pub struct BlobSlot {
    content: Option<Vec<u8>>,
}

impl View for BlobSlot {
    type V = Option<Seq<u8>>;

    /// The pending payload, if any.
    closed spec fn view(&self) -> Option<Seq<u8>> {
        match self.content {
            Some(bytes) => Some(bytes@),
            None => None,
        }
    }
}

impl BlobSlot {
    /// An empty slot.
    pub fn new() -> (slot: Self)
        ensures
            slot@ == None::<Seq<u8>>,
    {
        BlobSlot { content: None }
    }

    /// Replaces the pending payload, whether or not one was waiting.
    pub fn deposit(&mut self, bytes: Vec<u8>)
        ensures
            final(self)@ == after_deposit(old(self)@, bytes@),
    {
        self.content = Some(bytes);
    }

    /// Hands out the pending payload and leaves the slot empty.
    ///
    /// On an empty slot this returns `None` and changes nothing.
    pub fn take_if_present(&mut self) -> (taken: Option<Vec<u8>>)
        ensures
            final(self)@ == None::<Seq<u8>>,
            taken is Some <==> old(self)@ is Some,
            taken matches Some(bytes) ==> old(self)@ == Some(bytes@),
    {
        self.content.take()
    }

    /// Whether a payload is waiting.
    pub fn is_pending(&self) -> (pending: bool)
        ensures
            pending == (self@ is Some),
    {
        self.content.is_some()
    }
}

/// The two mailboxes shared by the host and the simulation loop: one for
/// model uploads, one for image uploads. They are independent of each other.
pub struct BinaryDataQueue {
    pub model: BlobSlot,
    pub image: BlobSlot,
}

impl BinaryDataQueue {
    /// A queue with both slots empty.
    pub fn new() -> (queue: Self)
        ensures
            queue.model@ == None::<Seq<u8>>,
            queue.image@ == None::<Seq<u8>>,
    {
        BinaryDataQueue { model: BlobSlot::new(), image: BlobSlot::new() }
    }
}

/// After any non-empty run of deposits with no take in between, the slot
/// holds exactly the payload of the last deposit: the next take returns it
/// and none of the earlier ones.
pub proof fn lemma_last_deposit_wins(pending: Option<Seq<u8>>, deposits: Seq<Seq<u8>>)
    requires
        deposits.len() > 0,
    ensures
        after_deposits(pending, deposits) == Some(deposits.last()),
{
}

/// A run of deposits followed by one more is the same as depositing the
/// longer run: deposits compose one at a time.
pub proof fn lemma_deposits_compose(
    pending: Option<Seq<u8>>,
    deposits: Seq<Seq<u8>>,
    bytes: Seq<u8>,
)
    ensures
        after_deposits(pending, deposits.push(bytes)) == after_deposit(
            after_deposits(pending, deposits),
            bytes,
        ),
{
    assert(deposits.push(bytes).drop_last() =~= deposits);
}

} // verus!
